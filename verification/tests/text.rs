use tool_issuance::data::{Database, Employee, Issuance, Tool};
use tool_issuance::session::App;
use tool_issuance::text::{concat_byte_prefix, str_concat};

fn app_with_employee() -> App {
    let mut db = Database::with_default_accounts("a".to_string(), "s".to_string());
    db.add_employee(Employee {
        id: "e1".to_string(),
        name: "Иванов".to_string(),
        position: String::new(),
        department: String::new(),
        qr_code: "EMP_e1".to_string(),
    });
    App::new(db)
}

#[test]
fn scan_trims_unicode_whitespace() {
    let mut a = app_with_employee();
    a.terminal.scan_input = "\u{3000}\t EMP_e1\u{a0}\u{2028}".to_string();
    a.process_scan();
    assert_eq!(a.terminal.scanned_employee.as_ref().unwrap().id, "e1");
    a.terminal.scan_input = "EMP_ e1".to_string();
    a.process_scan();
    assert_eq!(a.terminal.error, "Сотрудник не найден");
}

#[test]
fn scan_prefix_must_match_exactly() {
    let mut a = app_with_employee();
    a.terminal.scan_input = "EMP".to_string();
    a.process_scan();
    assert_eq!(a.terminal.error, "Неизвестный QR код");
    a.terminal.scan_input = "emp_e1".to_string();
    a.process_scan();
    assert_eq!(a.terminal.error, "Неизвестный QR код");
}

#[test]
fn login_compares_whole_strings() {
    let mut a = app_with_employee();
    a.login.username = "admin ".to_string();
    a.login.password = "admin123".to_string();
    a.log_in();
    assert!(a.current_user.is_none());
    a.login.username = "admin".to_string();
    a.log_in();
    assert_eq!(a.current_user.as_ref().unwrap().id, "a");
}

fn tool(total: i32) -> Tool {
    Tool {
        id: "t".to_string(),
        name: "Ключ".to_string(),
        inventory_number: String::new(),
        category_id: String::new(),
        total_quantity: total,
        qr_code: "TOOL_t".to_string(),
    }
}

fn issuance(quantity: i32) -> Issuance {
    Issuance {
        id: "i".to_string(),
        tool_id: "t".to_string(),
        employee_id: "e".to_string(),
        user_id: "u".to_string(),
        quantity,
        issued_at: 0,
        returned_at: None,
    }
}

#[test]
fn refusals_render_numbers_in_decimal() {
    let mut db = Database::default();
    db.add_tool(tool(1234));
    assert_eq!(
        db.issue_tool(issuance(5000)).unwrap_err(),
        "Недостаточно инструментов. Доступно: 1234"
    );
    assert_eq!(
        db.write_off_tool("t", 1235).unwrap_err(),
        "Нельзя списать больше чем доступно. Доступно: 1234"
    );
    let mut db = Database::default();
    db.add_tool(tool(i32::MIN));
    assert_eq!(
        db.issue_tool(issuance(0)).unwrap_err(),
        "Недостаточно инструментов. Доступно: -2147483648"
    );
}

#[test]
fn concatenation_and_byte_prefix() {
    assert_eq!(str_concat("Выдано: ", "Пила"), "Выдано: Пила");
    assert_eq!(concat_byte_prefix("EMP_", "0123456789", 8), "EMP_01234567");
    assert_eq!(concat_byte_prefix("T_", "ёжик", 4), "T_ёж");
    assert_eq!(concat_byte_prefix("X", "abc", 3), "Xabc");
}

#[test]
fn fresh_ids_are_hyphenated_uuids() {
    let mut a = app_with_employee();
    a.employee_form.name = "Новый".to_string();
    assert!(a.submit_employee_form());
    let first = a.db.employees.last().unwrap().id.clone();
    assert_eq!(first.len(), 36);
    for (k, c) in first.chars().enumerate() {
        if k == 8 || k == 13 || k == 18 || k == 23 {
            assert_eq!(c, '-');
        } else {
            assert!(c.is_ascii_hexdigit() && !c.is_ascii_uppercase());
        }
    }
    let chars: Vec<char> = first.chars().collect();
    assert_eq!(chars[14], '4');
    assert!(matches!(chars[19], '8' | '9' | 'a' | 'b'));
    a.employee_form.name = "Ещё один".to_string();
    assert!(a.submit_employee_form());
    assert_ne!(a.db.employees.last().unwrap().id, first);
}

#[test]
fn return_reads_the_clock() {
    let mut db = Database::default();
    db.add_tool(tool(3));
    db.issue_tool(issuance(1)).unwrap();
    assert!(db.return_tool("i"));
    assert!(db.issuances[0].returned_at.unwrap() > 1_600_000_000_000_000);
}

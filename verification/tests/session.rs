use tool_issuance::data::{Database, Employee, Role, Tool};
use tool_issuance::session::{AdminTab, App, Screen};

fn app() -> App {
    let mut db = Database::with_default_accounts(
        "11111111-2222-4333-8444-555555555555".to_string(),
        "66666666-7777-4888-9999-000000000000".to_string(),
    );
    db.add_employee(Employee {
        id: "e1".to_string(),
        name: "Иванов".to_string(),
        position: "Слесарь".to_string(),
        department: "Цех".to_string(),
        qr_code: "EMP_e1".to_string(),
    });
    db.add_tool(Tool {
        id: "t1".to_string(),
        name: "Молоток".to_string(),
        inventory_number: "INV-7".to_string(),
        category_id: "cat1".to_string(),
        total_quantity: 3,
        qr_code: "TOOL_t1".to_string(),
    });
    App::new(db)
}

fn logged_in_terminal() -> App {
    let mut a = app();
    a.login.username = "storekeeper".to_string();
    a.login.password = "store123".to_string();
    a.log_in();
    a
}

fn scan(a: &mut App, code: &str) {
    a.terminal.scan_input = code.to_string();
    a.process_scan();
}

#[test]
fn new_app_starts_on_login() {
    let a = app();
    assert_eq!(a.screen, Screen::Login);
    assert!(a.current_user.is_none());
    assert_eq!(a.tool_form.quantity, 1);
    assert_eq!(a.terminal.issue_quantity, 1);
}

#[test]
fn admin_login_opens_overview() {
    let mut a = app();
    a.login.username = "admin".to_string();
    a.login.password = "admin123".to_string();
    a.login.error = "old".to_string();
    a.log_in();
    assert_eq!(a.screen, Screen::Admin(AdminTab::Overview));
    assert_eq!(a.current_user.as_ref().unwrap().role, Role::ADMIN);
    assert_eq!(a.login.error, "");
}

#[test]
fn storekeeper_login_opens_terminal() {
    let a = logged_in_terminal();
    assert_eq!(a.screen, Screen::Terminal);
    assert_eq!(a.current_user.as_ref().unwrap().username, "storekeeper");
}

#[test]
fn wrong_login_shows_error() {
    let mut a = app();
    a.login.username = "admin".to_string();
    a.login.password = "nope".to_string();
    a.log_in();
    assert_eq!(a.screen, Screen::Login);
    assert!(a.current_user.is_none());
    assert_eq!(a.login.error, "Неверный логин или пароль");
}

#[test]
fn log_out_clears_login_fields() {
    let mut a = logged_in_terminal();
    scan(&mut a, "EMP_e1");
    a.log_out_of_terminal();
    assert_eq!(a.screen, Screen::Login);
    assert!(a.current_user.is_none());
    assert_eq!(a.login.username, "");
    assert_eq!(a.login.password, "");
    assert!(a.terminal.scanned_employee.is_none());
    assert_eq!(a.terminal.scan_input, "");
    let mut b = app();
    b.login.username = "admin".to_string();
    b.login.password = "admin123".to_string();
    b.log_in();
    b.log_out();
    assert_eq!(b.screen, Screen::Login);
    assert_eq!(b.login.username, "");
}

#[test]
fn scan_employee_and_tool() {
    let mut a = logged_in_terminal();
    scan(&mut a, "  EMP_e1\n");
    assert_eq!(a.terminal.scanned_employee.as_ref().unwrap().id, "e1");
    assert_eq!(a.terminal.message, "Сотрудник: Иванов");
    assert_eq!(a.terminal.error, "");
    scan(&mut a, "TOOL_t1");
    assert_eq!(a.terminal.scanned_tool.as_ref().unwrap().id, "t1");
    assert_eq!(a.terminal.message, "Инструмент: Молоток");
    assert_eq!(a.terminal.issue_quantity, 1);
}

#[test]
fn scan_errors() {
    let mut a = logged_in_terminal();
    scan(&mut a, "EMP_zz");
    assert_eq!(a.terminal.error, "Сотрудник не найден");
    assert_eq!(a.terminal.message, "");
    scan(&mut a, "TOOL_zz");
    assert_eq!(a.terminal.error, "Инструмент не найден");
    scan(&mut a, "hello");
    assert_eq!(a.terminal.error, "Неизвестный QR код");
    scan(&mut a, "");
    assert_eq!(a.terminal.error, "Неизвестный QR код");
}

#[test]
fn quantity_buttons_stay_within_bounds() {
    let mut a = logged_in_terminal();
    a.decrease_issue_quantity();
    assert_eq!(a.terminal.issue_quantity, 1);
    a.increase_issue_quantity();
    assert_eq!(a.terminal.issue_quantity, 1);
    scan(&mut a, "TOOL_t1");
    a.increase_issue_quantity();
    a.increase_issue_quantity();
    a.increase_issue_quantity();
    assert_eq!(a.terminal.issue_quantity, 3);
    a.decrease_issue_quantity();
    assert_eq!(a.terminal.issue_quantity, 2);
}

#[test]
fn issue_from_terminal_and_return() {
    let mut a = logged_in_terminal();
    scan(&mut a, "EMP_e1");
    scan(&mut a, "TOOL_t1");
    a.increase_issue_quantity();
    assert!(a.issue_tool());
    assert_eq!(a.terminal.message, "Выдано: Молоток x2");
    assert!(a.terminal.scanned_tool.is_none());
    assert_eq!(a.terminal.issue_quantity, 1);
    let iss = a.db.issuances.last().unwrap().clone();
    assert_eq!(iss.tool_id, "t1");
    assert_eq!(iss.employee_id, "e1");
    assert_eq!(iss.user_id, "66666666-7777-4888-9999-000000000000");
    assert_eq!(iss.quantity, 2);
    assert!(uuid::Uuid::parse_str(&iss.id).is_ok());
    assert_eq!(a.db.get_available_quantity("t1"), 1);
    assert!(a.return_issued_tool(&iss.id));
    assert_eq!(a.terminal.message, "Инструмент возвращен");
    assert_eq!(a.db.get_available_quantity("t1"), 3);
}

#[test]
fn issue_refused_shows_shortage() {
    let mut a = logged_in_terminal();
    scan(&mut a, "EMP_e1");
    scan(&mut a, "TOOL_t1");
    assert!(a.issue_tool_with("x".to_string(), 1));
    scan(&mut a, "TOOL_t1");
    a.terminal.issue_quantity = 3;
    assert!(!a.issue_tool_with("y".to_string(), 2));
    assert_eq!(a.terminal.error, "Недостаточно инструментов. Доступно: 2");
    assert_eq!(a.db.issuances.len(), 1);
}

#[test]
fn issue_needs_employee_tool_and_user() {
    let mut a = logged_in_terminal();
    scan(&mut a, "TOOL_t1");
    assert!(!a.issue_tool());
    assert!(a.db.issuances.is_empty());
}

#[test]
fn scanning_a_tool_with_nothing_available() {
    let mut a = logged_in_terminal();
    scan(&mut a, "EMP_e1");
    scan(&mut a, "TOOL_t1");
    a.terminal.issue_quantity = 3;
    assert!(a.issue_tool_with("x".to_string(), 1));
    scan(&mut a, "TOOL_t1");
    assert_eq!(a.terminal.issue_quantity, 0);
}

#[test]
fn new_employee_gets_uuid_and_qr_code() {
    let mut a = app();
    a.employee_form.name = "Петров".to_string();
    a.employee_form.position = "Токарь".to_string();
    assert!(a.submit_employee_form());
    let e = a.db.employees.last().unwrap().clone();
    assert_eq!(e.name, "Петров");
    assert_eq!(e.position, "Токарь");
    assert_eq!(e.id.len(), 36);
    assert_eq!(e.qr_code, format!("EMP_{}", &e.id[..8]));
    assert_eq!(a.employee_form.name, "");
    assert!(a.employee_form.editing_id.is_none());
    assert_eq!(a.db.get_employee_by_qr(&e.qr_code).unwrap().id, e.id);
}

#[test]
fn employee_form_with_empty_name_does_nothing() {
    let mut a = app();
    a.employee_form.position = "Токарь".to_string();
    assert!(!a.submit_employee_form());
    assert_eq!(a.db.employees.len(), 1);
    assert_eq!(a.employee_form.position, "Токарь");
}

#[test]
fn editing_an_employee_replaces_it() {
    let mut a = app();
    let e = Employee {
        id: "abcdefgh-rest".to_string(),
        name: "Старое".to_string(),
        position: "".to_string(),
        department: "".to_string(),
        qr_code: "EMP_abcdefgh".to_string(),
    };
    a.db.add_employee(e.clone());
    a.employee_form.start_editing(&e);
    assert_eq!(a.employee_form.name, "Старое");
    a.employee_form.name = "Новое".to_string();
    assert!(a.submit_employee_form());
    assert_eq!(a.db.employees.len(), 2);
    assert_eq!(a.db.employees[1].name, "Новое");
    assert_eq!(a.db.employees[1].qr_code, "EMP_abcdefgh");
}

#[test]
fn qr_code_takes_the_first_eight_bytes() {
    let mut a = app();
    a.employee_form.name = "X".to_string();
    assert!(a.save_employee_form("абвгдеёж".to_string()));
    assert_eq!(a.db.employees.last().unwrap().qr_code, "EMP_абвг");
}

#[test]
fn new_tool_from_form() {
    let mut a = app();
    a.tool_form.name = "Пила".to_string();
    a.tool_form.inventory = "INV-9".to_string();
    a.tool_form.category = "cat2".to_string();
    a.tool_form.quantity = 4;
    assert!(a.submit_tool_form());
    let t = a.db.tools.last().unwrap().clone();
    assert_eq!(t.name, "Пила");
    assert_eq!(t.inventory_number, "INV-9");
    assert_eq!(t.category_id, "cat2");
    assert_eq!(t.total_quantity, 4);
    assert_eq!(t.qr_code, format!("TOOL_{}", &t.id[..8]));
    assert_eq!(a.tool_form.quantity, 1);
    assert_eq!(a.tool_form.name, "");
}

#[test]
fn editing_a_missing_tool_changes_nothing() {
    let mut a = app();
    let t = Tool {
        id: "zzzzzzzz-gone".to_string(),
        name: "Нет".to_string(),
        inventory_number: "".to_string(),
        category_id: "".to_string(),
        total_quantity: 1,
        qr_code: "TOOL_zzzzzzzz".to_string(),
    };
    a.tool_form.start_editing(&t);
    assert_eq!(a.tool_form.quantity, 1);
    assert!(!a.submit_tool_form());
    assert_eq!(a.db.tools.len(), 1);
    assert!(a.tool_form.editing_id.is_none());
}

#[test]
fn tabs_switch_only_on_the_admin_screen() {
    let mut a = app();
    a.open_tab(AdminTab::Tools);
    assert_eq!(a.screen, Screen::Login);
    a.login.username = "admin".to_string();
    a.login.password = "admin123".to_string();
    a.log_in();
    a.open_tab(AdminTab::Tools);
    assert_eq!(a.screen, Screen::Admin(AdminTab::Tools));
    let mut t = logged_in_terminal();
    t.open_tab(AdminTab::Employees);
    assert_eq!(t.screen, Screen::Terminal);
}

#[test]
fn issue_button_needs_employee_and_availability() {
    let mut a = logged_in_terminal();
    assert!(!a.can_issue());
    scan(&mut a, "TOOL_t1");
    assert!(!a.can_issue());
    scan(&mut a, "EMP_e1");
    assert!(a.can_issue());
    a.terminal.issue_quantity = 3;
    assert!(a.issue_tool());
    scan(&mut a, "TOOL_t1");
    assert!(!a.can_issue());
}

#[test]
fn overview_lists_the_first_twenty_active_issuances() {
    let mut a = logged_in_terminal();
    let mut t = a.db.tools[0].clone();
    t.total_quantity = 100;
    a.db.update_tool(t);
    scan(&mut a, "EMP_e1");
    for _ in 0..25 {
        scan(&mut a, "TOOL_t1");
        assert!(a.issue_tool());
    }
    let first = a.db.issuances[0].id.clone();
    a.db.return_tool_at(&first, 1);
    let listed = a.overview_issuances();
    assert_eq!(listed.len(), 20);
    assert_eq!(listed[0].id, a.db.issuances[1].id);
    assert_eq!(listed[19].id, a.db.issuances[20].id);
}

#[test]
fn empty_name_saves_nothing_whatever_is_edited() {
    let mut a = app();
    a.employee_form.editing_id = Some("e1".to_string());
    assert!(!a.submit_employee_form());
    assert_eq!(a.db.employees.len(), 1);
    assert_eq!(a.employee_form.editing_id.as_deref(), Some("e1"));
    a.tool_form.editing_id = Some("x".to_string());
    assert!(!a.submit_tool_form());
    assert_eq!(a.tool_form.editing_id.as_deref(), Some("x"));
}

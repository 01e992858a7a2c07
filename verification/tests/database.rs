use tool_issuance::data::{Category, Database, Employee, Issuance, Role, Tool};

fn employee(id: &str, name: &str, qr: &str) -> Employee {
    Employee {
        id: id.to_string(),
        name: name.to_string(),
        position: "Слесарь".to_string(),
        department: "Цех 1".to_string(),
        qr_code: qr.to_string(),
    }
}

fn tool(id: &str, name: &str, qr: &str, total: i32) -> Tool {
    Tool {
        id: id.to_string(),
        name: name.to_string(),
        inventory_number: "INV-1".to_string(),
        category_id: "cat1".to_string(),
        total_quantity: total,
        qr_code: qr.to_string(),
    }
}

fn issuance(id: &str, tool_id: &str, employee_id: &str, quantity: i32) -> Issuance {
    Issuance {
        id: id.to_string(),
        tool_id: tool_id.to_string(),
        employee_id: employee_id.to_string(),
        user_id: "u1".to_string(),
        quantity,
        issued_at: 1_700_000_000_000_000,
        returned_at: None,
    }
}

fn store_with_hammer() -> Database {
    let mut db = Database::default();
    db.add_tool(tool("t1", "Молоток", "TOOL_t1", 5));
    db.add_tool(tool("t2", "Дрель", "TOOL_t2", 2));
    db.add_employee(employee("e1", "Иванов", "EMP_e1"));
    db
}

#[test]
fn default_store_has_accounts_and_categories() {
    let db = Database::create_default();
    assert_eq!(db.users.len(), 2);
    assert_eq!(db.users[0].username, "admin");
    assert_eq!(db.users[0].password, "admin123");
    assert_eq!(db.users[0].name, "Администратор");
    assert_eq!(db.users[0].role, Role::ADMIN);
    assert_eq!(db.users[1].username, "storekeeper");
    assert_eq!(db.users[1].password, "store123");
    assert_eq!(db.users[1].role, Role::STOREKEEPER);
    let ids: Vec<&str> = db.categories.iter().map(|c| c.id.as_str()).collect();
    assert_eq!(ids, vec!["cat1", "cat2", "cat3", "cat4"]);
    assert_eq!(db.categories[2].name, "Измерительный инструмент");
    assert!(db.employees.is_empty() && db.tools.is_empty() && db.issuances.is_empty());
}

#[test]
fn default_store_ids_are_fresh_uuids() {
    let db = Database::create_default();
    for user in &db.users {
        assert_eq!(user.id.len(), 36);
        assert!(uuid::Uuid::parse_str(&user.id).is_ok());
        assert_eq!(user.id, user.id.to_lowercase());
    }
    assert_ne!(db.users[0].id, db.users[1].id);
}

#[test]
fn default_accounts_log_in_with_their_roles() {
    let db = Database::with_default_accounts("a".to_string(), "s".to_string());
    let admin = db.authenticate("admin", "admin123").unwrap();
    assert_eq!(admin.id, "a");
    assert_eq!(admin.role, Role::ADMIN);
    let keeper = db.authenticate("storekeeper", "store123").unwrap();
    assert_eq!(keeper.id, "s");
    assert_eq!(keeper.role, Role::STOREKEEPER);
}

#[test]
fn authenticate_refuses_wrong_credentials() {
    let db = Database::create_default();
    assert!(db.authenticate("admin", "store123").is_none());
    assert!(db.authenticate("Admin", "admin123").is_none());
    assert!(db.authenticate("", "").is_none());
}

#[test]
fn authenticate_takes_the_first_match() {
    let mut db = Database::with_default_accounts("a".to_string(), "s".to_string());
    let mut twin = db.users[0].clone();
    twin.id = "other".to_string();
    db.users.push(twin);
    assert_eq!(db.authenticate("admin", "admin123").unwrap().id, "a");
}

#[test]
fn employee_lookup_by_qr() {
    let db = store_with_hammer();
    assert_eq!(db.get_employee_by_qr("EMP_e1").unwrap().name, "Иванов");
    assert!(db.get_employee_by_qr("EMP_e2").is_none());
    assert!(db.get_employee_by_qr("emp_e1").is_none());
}

#[test]
fn update_employee_replaces_the_first_with_same_id() {
    let mut db = store_with_hammer();
    db.add_employee(employee("e2", "Петров", "EMP_e2"));
    assert!(db.update_employee(employee("e1", "Сидоров", "EMP_e1")));
    assert_eq!(db.employees.len(), 2);
    assert_eq!(db.employees[0].name, "Сидоров");
    assert_eq!(db.employees[1].name, "Петров");
    assert!(!db.update_employee(employee("e9", "Никто", "EMP_e9")));
    assert_eq!(db.employees.len(), 2);
}

#[test]
fn delete_employee_removes_every_match() {
    let mut db = store_with_hammer();
    db.add_employee(employee("e2", "Петров", "EMP_e2"));
    db.add_employee(employee("e1", "Дубль", "EMP_e1b"));
    db.delete_employee("e1");
    assert_eq!(db.employees.len(), 1);
    assert_eq!(db.employees[0].id, "e2");
    assert!(db.employee_by_id("e1").is_none());
    db.delete_employee("nothing");
    assert_eq!(db.employees.len(), 1);
}

#[test]
fn tools_add_update_delete_and_scan() {
    let mut db = store_with_hammer();
    assert_eq!(db.get_tool_by_qr("TOOL_t2").unwrap().name, "Дрель");
    assert!(db.update_tool(tool("t2", "Перфоратор", "TOOL_t2", 3)));
    assert_eq!(db.tool_by_id("t2").unwrap().name, "Перфоратор");
    assert!(!db.update_tool(tool("t3", "Пила", "TOOL_t3", 1)));
    db.delete_tool("t1");
    assert_eq!(db.tools.len(), 1);
    assert!(db.get_tool_by_qr("TOOL_t1").is_none());
    db.add_tool(tool("t3", "Пила", "TOOL_t3", 1));
    assert_eq!(db.get_tool_by_qr("TOOL_t3").unwrap().id, "t3");
}

#[test]
fn categories_and_their_names() {
    let mut db = Database::create_default();
    assert_eq!(db.get_category_name("cat2"), "Электроинструмент");
    assert_eq!(db.get_category_name("cat9"), "Без категории");
    assert!(db.update_category(Category { id: "cat2".to_string(), name: "Аккумуляторный".to_string() }));
    assert_eq!(db.get_category_name("cat2"), "Аккумуляторный");
    assert!(!db.update_category(Category { id: "cat9".to_string(), name: "X".to_string() }));
    db.add_category(Category { id: "cat5".to_string(), name: "Прочее".to_string() });
    assert_eq!(db.get_category_name("cat5"), "Прочее");
    db.delete_category("cat2");
    assert_eq!(db.get_category_name("cat2"), "Без категории");
    assert_eq!(db.categories.len(), 4);
}

#[test]
fn issued_and_available_quantities() {
    let mut db = store_with_hammer();
    assert_eq!(db.get_issued_quantity("t1"), 0);
    assert_eq!(db.get_available_quantity("t1"), 5);
    assert_eq!(db.get_available_quantity("unknown"), 0);
    db.issue_tool(issuance("i1", "t1", "e1", 2)).unwrap();
    db.issue_tool(issuance("i2", "t1", "e1", 1)).unwrap();
    db.issue_tool(issuance("i3", "t2", "e1", 1)).unwrap();
    assert_eq!(db.get_issued_quantity("t1"), 3);
    assert_eq!(db.get_available_quantity("t1"), 2);
    assert_eq!(db.get_available_quantity("t2"), 1);
    assert_eq!(db.available_for(&db.tools[0]), 2);
}

#[test]
fn issue_refused_when_short() {
    let mut db = store_with_hammer();
    db.issue_tool(issuance("i1", "t2", "e1", 2)).unwrap();
    let before = db.issuances.len();
    let err = db.issue_tool(issuance("i2", "t2", "e1", 1)).unwrap_err();
    assert_eq!(err, "Недостаточно инструментов. Доступно: 0");
    assert_eq!(db.issuances.len(), before);
    let err = db.issue_tool(issuance("i3", "t1", "e1", 6)).unwrap_err();
    assert_eq!(err, "Недостаточно инструментов. Доступно: 5");
}

#[test]
fn issue_of_unknown_tool_is_refused_unless_quantity_not_positive() {
    let mut db = store_with_hammer();
    let err = db.issue_tool(issuance("i1", "nope", "e1", 1)).unwrap_err();
    assert_eq!(err, "Недостаточно инструментов. Доступно: 0");
    assert!(db.issue_tool(issuance("i2", "nope", "e1", 0)).is_ok());
}

#[test]
fn shortage_message_shows_negative_availability() {
    let mut db = store_with_hammer();
    db.issue_tool(issuance("i1", "t2", "e1", 2)).unwrap();
    db.write_off_tool("t2", 0).unwrap();
    let mut t = db.tools[1].clone();
    t.total_quantity = 1;
    db.update_tool(t);
    let err = db.issue_tool(issuance("i2", "t2", "e1", 1)).unwrap_err();
    assert_eq!(err, "Недостаточно инструментов. Доступно: -1");
}

#[test]
fn return_then_available_again() {
    let mut db = store_with_hammer();
    db.issue_tool(issuance("i1", "t1", "e1", 4)).unwrap();
    assert_eq!(db.get_available_quantity("t1"), 1);
    assert!(db.return_tool("i1"));
    assert!(db.issuances[0].returned_at.is_some());
    assert_eq!(db.get_available_quantity("t1"), 5);
    assert!(!db.return_tool("i9"));
}

#[test]
fn return_at_sets_the_given_time_only() {
    let mut db = store_with_hammer();
    db.issue_tool(issuance("i1", "t1", "e1", 1)).unwrap();
    db.issue_tool(issuance("i2", "t1", "e1", 1)).unwrap();
    assert!(db.return_tool_at("i2", 42));
    assert_eq!(db.issuances[1].returned_at, Some(42));
    assert_eq!(db.issuances[0].returned_at, None);
    assert_eq!(db.issuances[1].quantity, 1);
    assert_eq!(db.issuances[1].issued_at, 1_700_000_000_000_000);
}

#[test]
fn write_off_reduces_total() {
    let mut db = store_with_hammer();
    db.issue_tool(issuance("i1", "t1", "e1", 2)).unwrap();
    db.write_off_tool("t1", 3).unwrap();
    assert_eq!(db.tools[0].total_quantity, 2);
    assert_eq!(db.get_available_quantity("t1"), 0);
}

#[test]
fn write_off_errors() {
    let mut db = store_with_hammer();
    db.issue_tool(issuance("i1", "t1", "e1", 2)).unwrap();
    let err = db.write_off_tool("t1", 4).unwrap_err();
    assert_eq!(err, "Нельзя списать больше чем доступно. Доступно: 3");
    assert_eq!(db.tools[0].total_quantity, 5);
    let err = db.write_off_tool("t9", 1).unwrap_err();
    assert_eq!(err, "Инструмент не найден");
}

#[test]
fn active_issuance_lists() {
    let mut db = store_with_hammer();
    db.add_employee(employee("e2", "Петров", "EMP_e2"));
    db.issue_tool(issuance("i1", "t1", "e1", 1)).unwrap();
    db.issue_tool(issuance("i2", "t1", "e2", 1)).unwrap();
    db.issue_tool(issuance("i3", "t2", "e1", 1)).unwrap();
    db.return_tool_at("i1", 5);
    let active: Vec<&str> = db.get_active_issuances().iter().map(|i| i.id.as_str()).collect();
    assert_eq!(active, vec!["i2", "i3"]);
    let of_e1: Vec<&str> =
        db.get_employee_active_issuances("e1").iter().map(|i| i.id.as_str()).collect();
    assert_eq!(of_e1, vec!["i3"]);
    assert!(db.get_employee_active_issuances("e3").is_empty());
}

#[test]
fn stats_count_what_the_store_holds() {
    let mut db = store_with_hammer();
    db.add_employee(employee("e2", "Петров", "EMP_e2"));
    db.issue_tool(issuance("i1", "t1", "e1", 2)).unwrap();
    db.issue_tool(issuance("i2", "t2", "e2", 1)).unwrap();
    db.issue_tool(issuance("i3", "t1", "e2", 1)).unwrap();
    db.return_tool_at("i3", 7);
    let stats = db.get_stats();
    assert_eq!(stats.total_employees, 2);
    assert_eq!(stats.total_tools, 2);
    assert_eq!(stats.total_tool_quantity, 7);
    assert_eq!(stats.active_issuances, 2);
    assert_eq!(stats.issued_quantity, 3);
    assert_eq!(stats.available_quantity, 4);
    assert_eq!(stats.active_issuances as usize, db.get_active_issuances().len());
}

#[test]
fn quantities_wrap_like_release_builds() {
    let mut db = Database::default();
    db.add_tool(tool("a", "A", "TOOL_a", i32::MAX));
    db.add_tool(tool("b", "B", "TOOL_b", 1));
    assert_eq!(db.get_stats().total_tool_quantity, i32::MIN);
    assert_eq!(db.get_stats().available_quantity, i32::MIN);
    db.issue_tool(issuance("i1", "a", "e", i32::MAX)).unwrap();
    db.issuances.push(issuance("i2", "a", "e", 1));
    assert_eq!(db.get_issued_quantity("a"), i32::MIN);
    assert_eq!(db.get_available_quantity("a"), -1);
}

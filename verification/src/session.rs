//! The state of the application between two screens and what each button
//! does to it: logging in and out, the employee and tool forms of the
//! administrator, and the scan, issue and return steps of the terminal.
//! Drawing the screens is left to the caller, which hands every user action to
//! one of the methods here.
use vstd::prelude::*;
use crate::arith::wrap_i32;
use crate::data::{active_quantity, Database, Employee, Issuance, Role, Tool, User};
use crate::runtime::{is_uuid_v4_text, lemma_uuid_is_ascii, new_uuid_string, now_micros};
use crate::search::first_match;
use crate::text::{
    str_concat, concat_byte_prefix, decimal, has_byte_boundary, i32_to_decimal, lemma_ascii_byte_prefix,
    starts_with, trim, trimmed, utf8_byte_prefix,
};

verus! {

/// The tabs of the administrator's screen.
#[derive(Debug, Clone, Copy, PartialEq, Eq, Structural)]
pub enum AdminTab {
    Overview,
    Employees,
    Tools,
    Issuances,
}

/// The screen on show.
#[derive(Debug, Clone, Copy, PartialEq, Eq, Structural)]
pub enum Screen {
    Login,
    Admin(AdminTab),
    Terminal,
}

/// The fields of the login screen and the message of a failed login.
pub struct LoginForm {
    pub username: String,
    pub password: String,
    pub error: String,
}

/// The employee form of the administrator: the fields, and the identifier of
/// the employee being edited (`None` when a new one is being added).
pub struct EmployeeForm {
    pub name: String,
    pub position: String,
    pub department: String,
    pub editing_id: Option<String>,
}

/// The tool form of the administrator: the fields, and the identifier of the
/// tool being edited (`None` when a new one is being added).
pub struct ToolForm {
    pub name: String,
    pub inventory: String,
    pub category: String,
    pub quantity: i32,
    pub editing_id: Option<String>,
}

/// The issuance terminal: the scan field, the employee and tool scanned, the
/// quantity to issue, and the last message and error shown.
pub struct Terminal {
    pub scan_input: String,
    pub scanned_employee: Option<Employee>,
    pub scanned_tool: Option<Tool>,
    pub issue_quantity: i32,
    pub message: String,
    pub error: String,
}

/// The whole state of the application.
pub struct App {
    pub db: Database,
    pub current_user: Option<User>,
    pub screen: Screen,
    pub login: LoginForm,
    pub employee_form: EmployeeForm,
    pub tool_form: ToolForm,
    pub terminal: Terminal,
}

impl EmployeeForm {
    /// All fields are empty and no employee is being edited.
    pub open spec fn is_clear(self) -> bool {
        &&& self.name@.len() == 0
        &&& self.position@.len() == 0
        &&& self.department@.len() == 0
        &&& self.editing_id is None
    }

    /// Empties the form and stops editing.
    pub fn clear(&mut self)
        ensures
            final(self).is_clear(),
    {
        self.name = String::new();
        self.position = String::new();
        self.department = String::new();
        self.editing_id = None;
    }

    /// Fills the form with `employee` for editing.
    pub fn start_editing(&mut self, employee: &Employee)
        ensures
            final(self).name == employee.name,
            final(self).position == employee.position,
            final(self).department == employee.department,
            final(self).editing_id == Some(employee.id),
    {
        self.name = employee.name.clone();
        self.position = employee.position.clone();
        self.department = employee.department.clone();
        self.editing_id = Some(employee.id.clone());
    }
}

impl ToolForm {
    /// All fields are empty, the quantity is 1 and no tool is being edited.
    pub open spec fn is_clear(self) -> bool {
        &&& self.name@.len() == 0
        &&& self.inventory@.len() == 0
        &&& self.category@.len() == 0
        &&& self.quantity == 1
        &&& self.editing_id is None
    }

    /// Empties the form, sets the quantity to 1 and stops editing.
    pub fn clear(&mut self)
        ensures
            final(self).is_clear(),
    {
        self.name = String::new();
        self.inventory = String::new();
        self.category = String::new();
        self.quantity = 1;
        self.editing_id = None;
    }

    /// Fills the form with `tool` for editing.
    pub fn start_editing(&mut self, tool: &Tool)
        ensures
            final(self).name == tool.name,
            final(self).inventory == tool.inventory_number,
            final(self).category == tool.category_id,
            final(self).quantity == tool.total_quantity,
            final(self).editing_id == Some(tool.id),
    {
        self.name = tool.name.clone();
        self.inventory = tool.inventory_number.clone();
        self.category = tool.category_id.clone();
        self.quantity = tool.total_quantity;
        self.editing_id = Some(tool.id.clone());
    }
}

impl App {
    /// The state at start-up, on the login screen, over store `db`.
    pub fn new(db: Database) -> (r: App)
        ensures
            r.db == db,
            r.current_user is None,
            r.screen == Screen::Login,
            r.login.username@.len() == 0,
            r.login.password@.len() == 0,
            r.login.error@.len() == 0,
            r.employee_form.is_clear(),
            r.tool_form.is_clear(),
            r.terminal.scan_input@.len() == 0,
            r.terminal.scanned_employee is None,
            r.terminal.scanned_tool is None,
            r.terminal.issue_quantity == 1,
            r.terminal.message@.len() == 0,
            r.terminal.error@.len() == 0,
            r.access_consistent(),
    {
        App {
            db,
            current_user: None,
            screen: Screen::Login,
            login: LoginForm { username: String::new(), password: String::new(), error: String::new() },
            employee_form: EmployeeForm {
                name: String::new(),
                position: String::new(),
                department: String::new(),
                editing_id: None,
            },
            tool_form: ToolForm {
                name: String::new(),
                inventory: String::new(),
                category: String::new(),
                quantity: 1,
                editing_id: None,
            },
            terminal: Terminal {
                scan_input: String::new(),
                scanned_employee: None,
                scanned_tool: None,
                issue_quantity: 1,
                message: String::new(),
                error: String::new(),
            },
        }
    }

    /// The screen a user lands on after logging in.
    pub open spec fn home_screen(role: Role) -> Screen {
        if role == Role::ADMIN {
            Screen::Admin(AdminTab::Overview)
        } else {
            Screen::Terminal
        }
    }

    /// Who is logged in fits the screen on show: nobody exactly on the login
    /// screen, an administrator on the administrator's screens, a
    /// storekeeper on the terminal. `App::new` establishes it and every action
    /// keeps it.
    pub open spec fn access_consistent(self) -> bool {
        &&& (self.screen == Screen::Login <==> self.current_user is None)
        &&& (self.screen is Admin ==> (self.current_user matches Some(u) && u.role == Role::ADMIN))
        &&& (self.screen == Screen::Terminal ==> (self.current_user matches Some(u) && u.role
            == Role::STOREKEEPER))
    }

    /// What can still be issued of `tool`, by the current store.
    pub open spec fn available_of(self, tool: Tool) -> int {
        wrap_i32(tool.total_quantity - active_quantity(self.db.issuances@, tool.id@))
    }

    /// With a tool scanned, the quantity to issue lies between 1 and what is
    /// available of that tool. The minus, plus and issue buttons keep it.
    pub open spec fn issue_quantity_in_bounds(self) -> bool {
        match self.terminal.scanned_tool {
            Some(tool) => 1 <= self.terminal.issue_quantity <= wrap_i32(
                tool.total_quantity - active_quantity(self.db.issuances@, tool.id@),
            ),
            None => true,
        }
    }

    /// A tab of the administrator's screen: switches to it while that screen
    /// is on show, and does nothing on any other screen.
    pub fn open_tab(&mut self, tab: AdminTab)
        ensures
            final(self).screen == (if old(self).screen is Admin {
                Screen::Admin(tab)
            } else {
                old(self).screen
            }),
            final(self).db == old(self).db,
            final(self).current_user == old(self).current_user,
            final(self).login == old(self).login,
            final(self).employee_form == old(self).employee_form,
            final(self).tool_form == old(self).tool_form,
            final(self).terminal == old(self).terminal,
            old(self).access_consistent() ==> final(self).access_consistent(),
    {
        if let Screen::Admin(_) = self.screen {
            self.screen = Screen::Admin(tab);
        }
    }

    /// Whether the terminal offers the issue button: an employee and a tool
    /// are scanned and something of the tool is available.
    pub fn can_issue(&self) -> (r: bool)
        ensures
            r == (self.terminal.scanned_employee is Some && match self.terminal.scanned_tool {
                Some(tool) => self.available_of(tool) > 0,
                None => false,
            }),
            r == (self.terminal.scanned_employee is Some && match self.terminal.scanned_tool {
                Some(tool) => wrap_i32(
                    tool.total_quantity - active_quantity(self.db.issuances@, tool.id@),
                ) > 0,
                None => false,
            }),
    {
        match &self.terminal.scanned_tool {
            Some(tool) => self.db.available_for(tool) > 0 && self.terminal.scanned_employee.is_some(),
            None => false,
        }
    }

    /// The issuances listed on the overview: the first twenty active ones.
    pub fn overview_issuances(&self) -> (r: Vec<&Issuance>)
        ensures
            ({
                let active = self.db.issuances@.filter(Issuance::active());
                r@.map_values(|x: &Issuance| *x) == active.take(
                    if active.len() < 20 {
                        active.len() as int
                    } else {
                        20
                    },
                )
            }),
    {
        let mut active = self.db.get_active_issuances();
        let ghost all = active@;
        if active.len() > 20 {
            active.truncate(20);
            proof {
                assert(active@.map_values(|x: &Issuance| *x) =~= all.map_values(
                    |x: &Issuance| *x,
                ).take(20));
            }
        } else {
            proof {
                assert(all.map_values(|x: &Issuance| *x) =~= all.map_values(
                    |x: &Issuance| *x,
                ).take(all.len() as int));
            }
        }
        active
    }

    /// The login button: logs in the first user with the username and
    /// password typed, clearing the error and opening the administrator's
    /// overview or the terminal according to the role; shows "Неверный логин
    /// или пароль" ("wrong login or password") when there is none.
    pub fn log_in(&mut self)
        ensures
            old(self).access_consistent() ==> final(self).access_consistent(),
            final(self).db == old(self).db,
            final(self).login.username == old(self).login.username,
            final(self).login.password == old(self).login.password,
            final(self).employee_form == old(self).employee_form,
            final(self).tool_form == old(self).tool_form,
            final(self).terminal == old(self).terminal,
            match old(self).db.login_match(old(self).login.username@, old(self).login.password@) {
                Some(i) => {
                    &&& final(self).current_user == Some(old(self).db.users@[i])
                    &&& final(self).login.error@.len() == 0
                    &&& final(self).screen == App::home_screen(old(self).db.users@[i].role)
                },
                None => {
                    &&& final(self).current_user == old(self).current_user
                    &&& final(self).login.error@ == "Неверный логин или пароль"@
                    &&& final(self).screen == old(self).screen
                },
            },
    {
        match self.db.authenticate(self.login.username.as_str(), self.login.password.as_str()) {
            Some(user) => {
                let role = user.role;
                self.current_user = Some(user.clone());
                self.login.error = String::new();
                if role == Role::ADMIN {
                    self.screen = Screen::Admin(AdminTab::Overview);
                } else {
                    self.screen = Screen::Terminal;
                }
            },
            None => {
                self.login.error = "Неверный логин или пароль".to_owned();
            },
        }
    }

    /// The exit button of the administrator: back to the login screen with
    /// nobody logged in and empty login fields.
    pub fn log_out(&mut self)
        ensures
            old(self).access_consistent() ==> final(self).access_consistent(),
            final(self).db == old(self).db,
            final(self).current_user is None,
            final(self).screen == Screen::Login,
            final(self).login.username@.len() == 0,
            final(self).login.password@.len() == 0,
            final(self).login.error == old(self).login.error,
            final(self).employee_form == old(self).employee_form,
            final(self).tool_form == old(self).tool_form,
            final(self).terminal == old(self).terminal,
    {
        self.current_user = None;
        self.screen = Screen::Login;
        self.login.username = String::new();
        self.login.password = String::new();
    }

    /// The exit button of the terminal: as `log_out`, and the scanned
    /// employee, the scanned tool and the scan field are cleared too.
    pub fn log_out_of_terminal(&mut self)
        ensures
            old(self).access_consistent() ==> final(self).access_consistent(),
            final(self).db == old(self).db,
            final(self).current_user is None,
            final(self).screen == Screen::Login,
            final(self).login.username@.len() == 0,
            final(self).login.password@.len() == 0,
            final(self).login.error == old(self).login.error,
            final(self).employee_form == old(self).employee_form,
            final(self).tool_form == old(self).tool_form,
            final(self).terminal.scan_input@.len() == 0,
            final(self).terminal.scanned_employee is None,
            final(self).terminal.scanned_tool is None,
            final(self).terminal.issue_quantity == old(self).terminal.issue_quantity,
            final(self).terminal.message == old(self).terminal.message,
            final(self).terminal.error == old(self).terminal.error,
    {
        self.log_out();
        self.terminal.scanned_employee = None;
        self.terminal.scanned_tool = None;
        self.terminal.scan_input = String::new();
    }

    /// `self` and `other` agree on everything but the store's employees and
    /// the employee form.
    pub open spec fn same_but_employee_form(self, other: App) -> bool {
        &&& self.db.same_but_employees(other.db)
        &&& self.current_user == other.current_user
        &&& self.screen == other.screen
        &&& self.login == other.login
        &&& self.tool_form == other.tool_form
        &&& self.terminal == other.terminal
    }

    /// `self` and `other` agree on everything but the store's tools and the
    /// tool form.
    pub open spec fn same_but_tool_form(self, other: App) -> bool {
        &&& self.db.same_but_tools(other.db)
        &&& self.current_user == other.current_user
        &&& self.screen == other.screen
        &&& self.login == other.login
        &&& self.employee_form == other.employee_form
        &&& self.terminal == other.terminal
    }

    /// What saving the employee form under identifier `id` does, from `old`
    /// to `new`: when an employee is being edited, the first employee with
    /// identifier `id` is replaced by the record of the form (`saved` is false
    /// and the employees stay as they were when there is none); otherwise the
    /// record is appended. The form is cleared either way.
    pub open spec fn employee_form_saved(old: App, new: App, id: Seq<char>, saved: bool) -> bool {
        &&& new.employee_form.is_clear()
        &&& new.same_but_employee_form(old)
        &&& match old.employee_form.editing_id {
            Some(_) => match first_match(old.db.employees@, Employee::has_id(id)) {
                Some(i) => {
                    &&& saved
                    &&& new.db.employees@.len() == old.db.employees@.len()
                    &&& is_form_employee(new.db.employees@[i], old.employee_form, id)
                    &&& forall|j: int|
                        0 <= j < old.db.employees@.len() && j != i ==> new.db.employees@[j]
                            == old.db.employees@[j]
                },
                None => !saved && new.db.employees@ == old.db.employees@,
            },
            None => {
                &&& saved
                &&& new.db.employees@.len() == old.db.employees@.len() + 1
                &&& new.db.employees@.drop_last() == old.db.employees@
                &&& is_form_employee(new.db.employees@.last(), old.employee_form, id)
            },
        }
    }

    /// What saving the tool form under identifier `id` does, from `old` to
    /// `new`; as `employee_form_saved`, for tools.
    pub open spec fn tool_form_saved(old: App, new: App, id: Seq<char>, saved: bool) -> bool {
        &&& new.tool_form.is_clear()
        &&& new.same_but_tool_form(old)
        &&& match old.tool_form.editing_id {
            Some(_) => match first_match(old.db.tools@, Tool::has_id(id)) {
                Some(i) => {
                    &&& saved
                    &&& new.db.tools@.len() == old.db.tools@.len()
                    &&& is_form_tool(new.db.tools@[i], old.tool_form, id)
                    &&& forall|j: int|
                        0 <= j < old.db.tools@.len() && j != i ==> new.db.tools@[j]
                            == old.db.tools@[j]
                },
                None => !saved && new.db.tools@ == old.db.tools@,
            },
            None => {
                &&& saved
                &&& new.db.tools@.len() == old.db.tools@.len() + 1
                &&& new.db.tools@.drop_last() == old.db.tools@
                &&& is_form_tool(new.db.tools@.last(), old.tool_form, id)
            },
        }
    }

    /// Saves the employee form under identifier `id` (see
    /// `employee_form_saved`); returns whether the store changed. The QR code
    /// is "EMP_" and the first eight bytes of `id`.
    pub fn save_employee_form(&mut self, id: String) -> (saved: bool)
        requires
            has_byte_boundary(id@, 8),
        ensures
            old(self).access_consistent() ==> final(self).access_consistent(),
            App::employee_form_saved(*old(self), *final(self), id@, saved),
            old(self).employee_form.editing_id is Some ==> match first_match(
                old(self).db.employees@,
                Employee::has_id(id@),
            ) {
                Some(i) => {
                    &&& saved
                    &&& final(self).db.employees@ == old(self).db.employees@.update(
                        i,
                        final(self).db.employees@[i],
                    )
                    &&& final(self).db.employees@[i].id@ == id@
                    &&& final(self).db.employees@[i].name == old(self).employee_form.name
                    &&& final(self).db.employees@[i].position == old(self).employee_form.position
                    &&& final(self).db.employees@[i].department
                        == old(self).employee_form.department
                },
                None => !saved && final(self).db.employees@ == old(self).db.employees@,
            },
            old(self).employee_form.editing_id is None ==> {
                &&& saved
                &&& final(self).db.employees@ == old(self).db.employees@.push(
                    final(self).db.employees@.last(),
                )
                &&& final(self).db.employees@.last().id@ == id@
                &&& final(self).db.employees@.last().name == old(self).employee_form.name
                &&& final(self).db.employees@.last().position == old(self).employee_form.position
                &&& final(self).db.employees@.last().department
                    == old(self).employee_form.department
            },
    {
        let qr_code = concat_byte_prefix("EMP_", id.as_str(), 8);
        let employee = Employee {
            id,
            name: self.employee_form.name.clone(),
            position: self.employee_form.position.clone(),
            department: self.employee_form.department.clone(),
            qr_code,
        };
        let saved = if self.employee_form.editing_id.is_some() {
            self.db.update_employee(employee)
        } else {
            self.db.add_employee(employee);
            proof {
                assert(self.db.employees@.drop_last() =~= old(self).db.employees@);
            }
            true
        };
        self.employee_form.clear();
        saved
    }

    /// The save button of the employee form. Nothing happens while the name
    /// is empty. Otherwise the form is saved under the identifier of the
    /// employee being edited or, for a new employee, under a fresh UUID.
    pub fn submit_employee_form(&mut self) -> (saved: bool)
        requires
            old(self).employee_form.name@.len() != 0 ==> (old(self).employee_form.editing_id matches Some(id)
                ==> has_byte_boundary(id@, 8)),
        ensures
            old(self).access_consistent() ==> final(self).access_consistent(),
            old(self).employee_form.name@.len() == 0 ==> !saved && *final(self) == *old(self),
            old(self).employee_form.name@.len() != 0 ==> (old(self).employee_form.editing_id
                matches Some(eid) ==> match first_match(old(self).db.employees@, Employee::has_id(eid@)) {
                Some(i) => {
                    &&& saved
                    &&& final(self).db.employees@ == old(self).db.employees@.update(
                        i,
                        final(self).db.employees@[i],
                    )
                    &&& final(self).db.employees@[i].id@ == eid@
                    &&& final(self).db.employees@[i].name == old(self).employee_form.name
                    &&& final(self).db.employees@[i].position == old(self).employee_form.position
                    &&& final(self).db.employees@[i].department
                        == old(self).employee_form.department
                },
                None => !saved && final(self).db.employees@ == old(self).db.employees@,
            }),
            old(self).employee_form.name@.len() != 0 ==> match old(self).employee_form.editing_id {
                Some(id) => App::employee_form_saved(*old(self), *final(self), id@, saved),
                None => {
                    &&& is_uuid_v4_text(final(self).db.employees@.last().id@)
                    &&& App::employee_form_saved(
                        *old(self),
                        *final(self),
                        final(self).db.employees@.last().id@,
                        saved,
                    )
                },
            },
    {
        if self.employee_form.name.as_str().is_empty() {
            return false;
        }
        let id = match &self.employee_form.editing_id {
            Some(id) => id.clone(),
            None => {
                let id = new_uuid_string();
                proof {
                    lemma_uuid_is_ascii(id@);
                    lemma_ascii_byte_prefix(id@, 8);
                }
                id
            },
        };
        self.save_employee_form(id)
    }

    /// Saves the tool form under identifier `id` (see `tool_form_saved`);
    /// returns whether the store changed. The QR code is "TOOL_" and the
    /// first eight bytes of `id`.
    pub fn save_tool_form(&mut self, id: String) -> (saved: bool)
        requires
            has_byte_boundary(id@, 8),
        ensures
            old(self).access_consistent() ==> final(self).access_consistent(),
            App::tool_form_saved(*old(self), *final(self), id@, saved),
            old(self).tool_form.editing_id is Some ==> match first_match(
                old(self).db.tools@,
                Tool::has_id(id@),
            ) {
                Some(i) => {
                    &&& saved
                    &&& final(self).db.tools@ == old(self).db.tools@.update(
                        i,
                        final(self).db.tools@[i],
                    )
                    &&& final(self).db.tools@[i].id@ == id@
                    &&& final(self).db.tools@[i].name == old(self).tool_form.name
                    &&& final(self).db.tools@[i].inventory_number == old(self).tool_form.inventory
                    &&& final(self).db.tools@[i].category_id == old(self).tool_form.category
                    &&& final(self).db.tools@[i].total_quantity == old(self).tool_form.quantity
                },
                None => !saved && final(self).db.tools@ == old(self).db.tools@,
            },
            old(self).tool_form.editing_id is None ==> {
                &&& saved
                &&& final(self).db.tools@ == old(self).db.tools@.push(final(self).db.tools@.last())
                &&& final(self).db.tools@.last().id@ == id@
                &&& final(self).db.tools@.last().name == old(self).tool_form.name
                &&& final(self).db.tools@.last().inventory_number == old(self).tool_form.inventory
                &&& final(self).db.tools@.last().category_id == old(self).tool_form.category
                &&& final(self).db.tools@.last().total_quantity == old(self).tool_form.quantity
            },
    {
        let qr_code = concat_byte_prefix("TOOL_", id.as_str(), 8);
        let tool = Tool {
            id,
            name: self.tool_form.name.clone(),
            inventory_number: self.tool_form.inventory.clone(),
            category_id: self.tool_form.category.clone(),
            total_quantity: self.tool_form.quantity,
            qr_code,
        };
        let saved = if self.tool_form.editing_id.is_some() {
            self.db.update_tool(tool)
        } else {
            self.db.add_tool(tool);
            proof {
                assert(self.db.tools@.drop_last() =~= old(self).db.tools@);
            }
            true
        };
        self.tool_form.clear();
        saved
    }

    /// The save button of the tool form. Nothing happens while the name is
    /// empty. Otherwise the form is saved under the identifier of the tool
    /// being edited or, for a new tool, under a fresh UUID.
    pub fn submit_tool_form(&mut self) -> (saved: bool)
        requires
            old(self).tool_form.name@.len() != 0 ==> (old(self).tool_form.editing_id matches Some(id)
                ==> has_byte_boundary(id@, 8)),
        ensures
            old(self).access_consistent() ==> final(self).access_consistent(),
            old(self).tool_form.name@.len() == 0 ==> !saved && *final(self) == *old(self),
            old(self).tool_form.name@.len() != 0 ==> (old(self).tool_form.editing_id matches Some(
                tid,
            ) ==> match first_match(old(self).db.tools@, Tool::has_id(tid@)) {
                Some(i) => {
                    &&& saved
                    &&& final(self).db.tools@ == old(self).db.tools@.update(
                        i,
                        final(self).db.tools@[i],
                    )
                    &&& final(self).db.tools@[i].id@ == tid@
                    &&& final(self).db.tools@[i].name == old(self).tool_form.name
                    &&& final(self).db.tools@[i].inventory_number == old(self).tool_form.inventory
                    &&& final(self).db.tools@[i].category_id == old(self).tool_form.category
                    &&& final(self).db.tools@[i].total_quantity == old(self).tool_form.quantity
                },
                None => !saved && final(self).db.tools@ == old(self).db.tools@,
            }),
            old(self).tool_form.name@.len() != 0 ==> match old(self).tool_form.editing_id {
                Some(id) => App::tool_form_saved(*old(self), *final(self), id@, saved),
                None => {
                    &&& is_uuid_v4_text(final(self).db.tools@.last().id@)
                    &&& App::tool_form_saved(
                        *old(self),
                        *final(self),
                        final(self).db.tools@.last().id@,
                        saved,
                    )
                },
            },
    {
        if self.tool_form.name.as_str().is_empty() {
            return false;
        }
        let id = match &self.tool_form.editing_id {
            Some(id) => id.clone(),
            None => {
                let id = new_uuid_string();
                proof {
                    lemma_uuid_is_ascii(id@);
                    lemma_ascii_byte_prefix(id@, 8);
                }
                id
            },
        };
        self.save_tool_form(id)
    }

    /// `self` and `other` agree on everything but the terminal.
    pub open spec fn same_but_terminal(self, other: App) -> bool {
        &&& self.db == other.db
        &&& self.current_user == other.current_user
        &&& self.screen == other.screen
        &&& self.login == other.login
        &&& self.employee_form == other.employee_form
        &&& self.tool_form == other.tool_form
    }

    /// The code that the scan field holds: its text without surrounding
    /// whitespace.
    pub open spec fn scanned_code(self) -> Seq<char> {
        trimmed(self.terminal.scan_input@)
    }

    /// Handles a scanned code (the scan field, trimmed). A code that starts
    /// with "EMP_" selects the first employee with that QR code, one that
    /// starts with "TOOL_" the first tool with that QR code, and sets the
    /// quantity to issue to 1, or to what is available when that is less. The
    /// message names what was selected; the error says why nothing was:
    /// "Сотрудник не найден" (no such employee), "Инструмент не найден" (no
    /// such tool) or "Неизвестный QR код" (unknown code). Each scan clears the
    /// previous message and error.
    pub fn process_scan(&mut self)
        ensures
            old(self).access_consistent() ==> final(self).access_consistent(),
            final(self).same_but_terminal(*old(self)),
            final(self).terminal.scan_input == old(self).terminal.scan_input,
            ({
                let code = old(self).scanned_code();
                let t0 = old(self).terminal;
                let t1 = final(self).terminal;
                if "EMP_"@.is_prefix_of(code) {
                    &&& t1.scanned_tool == t0.scanned_tool
                    &&& t1.issue_quantity == t0.issue_quantity
                    &&& match first_match(old(self).db.employees@, Employee::has_qr(code)) {
                        Some(i) => {
                            &&& t1.scanned_employee == Some(old(self).db.employees@[i])
                            &&& t1.message@ == "Сотрудник: "@ + old(self).db.employees@[i].name@
                            &&& t1.error@.len() == 0
                        },
                        None => {
                            &&& t1.scanned_employee == t0.scanned_employee
                            &&& t1.message@.len() == 0
                            &&& t1.error@ == "Сотрудник не найден"@
                        },
                    }
                } else if "TOOL_"@.is_prefix_of(code) {
                    &&& t1.scanned_employee == t0.scanned_employee
                    &&& match first_match(old(self).db.tools@, Tool::has_qr(code)) {
                        Some(i) => {
                            let tool = old(self).db.tools@[i];
                            let available = wrap_i32(
                                tool.total_quantity - active_quantity(
                                    old(self).db.issuances@,
                                    tool.id@,
                                ),
                            );
                            &&& t1.scanned_tool == Some(tool)
                            &&& t1.issue_quantity == (if available < 1 {
                                available
                            } else {
                                1
                            })
                            &&& t1.message@ == "Инструмент: "@ + tool.name@
                            &&& t1.error@.len() == 0
                        },
                        None => {
                            &&& t1.scanned_tool == t0.scanned_tool
                            &&& t1.issue_quantity == t0.issue_quantity
                            &&& t1.message@.len() == 0
                            &&& t1.error@ == "Инструмент не найден"@
                        },
                    }
                } else {
                    &&& t1.scanned_employee == t0.scanned_employee
                    &&& t1.scanned_tool == t0.scanned_tool
                    &&& t1.issue_quantity == t0.issue_quantity
                    &&& t1.message@.len() == 0
                    &&& t1.error@ == "Неизвестный QR код"@
                }
            }),
    {
        self.terminal.error = String::new();
        self.terminal.message = String::new();
        let code = trim(self.terminal.scan_input.as_str());
        if starts_with(code, "EMP_") {
            match self.db.get_employee_by_qr(code) {
                Some(emp) => {
                    self.terminal.message = str_concat("Сотрудник: ", emp.name.as_str());
                    self.terminal.scanned_employee = Some(emp.clone());
                },
                None => {
                    self.terminal.error = "Сотрудник не найден".to_owned();
                },
            }
        } else if starts_with(code, "TOOL_") {
            match self.db.get_tool_by_qr(code) {
                Some(tool) => {
                    let available = self.db.available_for(tool);
                    self.terminal.issue_quantity = if available < 1 {
                        available
                    } else {
                        1
                    };
                    self.terminal.message = str_concat("Инструмент: ", tool.name.as_str());
                    self.terminal.scanned_tool = Some(tool.clone());
                },
                None => {
                    self.terminal.error = "Инструмент не найден".to_owned();
                },
            }
        } else {
            self.terminal.error = "Неизвестный QR код".to_owned();
        }
    }

    /// The minus button of the quantity to issue: lowers it by one while it
    /// is above 1.
    pub fn decrease_issue_quantity(&mut self)
        ensures
            old(self).access_consistent() ==> final(self).access_consistent(),
            old(self).issue_quantity_in_bounds() ==> final(self).issue_quantity_in_bounds(),
            final(self).same_but_terminal(*old(self)),
            final(self).terminal.issue_quantity == if old(self).terminal.issue_quantity > 1 {
                old(self).terminal.issue_quantity - 1
            } else {
                old(self).terminal.issue_quantity as int
            },
            final(self).terminal.scan_input == old(self).terminal.scan_input,
            final(self).terminal.scanned_employee == old(self).terminal.scanned_employee,
            final(self).terminal.scanned_tool == old(self).terminal.scanned_tool,
            final(self).terminal.message == old(self).terminal.message,
            final(self).terminal.error == old(self).terminal.error,
    {
        if self.terminal.issue_quantity > 1 {
            self.terminal.issue_quantity = self.terminal.issue_quantity - 1;
        }
    }

    /// The plus button of the quantity to issue: raises it by one while it is
    /// below what is available of the scanned tool (nothing happens without a
    /// scanned tool).
    pub fn increase_issue_quantity(&mut self)
        ensures
            old(self).access_consistent() ==> final(self).access_consistent(),
            old(self).issue_quantity_in_bounds() ==> final(self).issue_quantity_in_bounds(),
            final(self).same_but_terminal(*old(self)),
            final(self).terminal.issue_quantity == match old(self).terminal.scanned_tool {
                Some(tool) => if old(self).terminal.issue_quantity < wrap_i32(
                    tool.total_quantity - active_quantity(old(self).db.issuances@, tool.id@),
                ) {
                    old(self).terminal.issue_quantity + 1
                } else {
                    old(self).terminal.issue_quantity as int
                },
                None => old(self).terminal.issue_quantity as int,
            },
            final(self).terminal.scan_input == old(self).terminal.scan_input,
            final(self).terminal.scanned_employee == old(self).terminal.scanned_employee,
            final(self).terminal.scanned_tool == old(self).terminal.scanned_tool,
            final(self).terminal.message == old(self).terminal.message,
            final(self).terminal.error == old(self).terminal.error,
    {
        if let Some(tool) = &self.terminal.scanned_tool {
            let available = self.db.available_for(tool);
            if self.terminal.issue_quantity < available {
                self.terminal.issue_quantity = self.terminal.issue_quantity + 1;
            }
        }
    }

    /// The issuance that the terminal records for employee `employee`, tool
    /// `tool` and user `user`, under identifier `id` at time `at`.
    pub open spec fn is_terminal_issuance(
        iss: Issuance,
        id: Seq<char>,
        employee: Employee,
        tool: Tool,
        user: User,
        quantity: i32,
        at: i64,
    ) -> bool {
        &&& iss.id@ == id
        &&& iss.tool_id == tool.id
        &&& iss.employee_id == employee.id
        &&& iss.user_id == user.id
        &&& iss.quantity == quantity
        &&& iss.issued_at == at
        &&& iss.returned_at is None
    }

    /// What the issue button does from `old` to `new` when the issuance gets
    /// identifier `id` and time `at`: with an employee and a tool scanned and
    /// a user logged in, the store records the issuance when the quantity to
    /// issue does not exceed what is available of the tool; then the message
    /// reads "Выдано: <tool> x<quantity>" ("issued"), the scanned tool is
    /// dropped and the quantity goes back to 1. Otherwise the error shows the
    /// store's refusal. Without an employee, a tool or a user nothing happens.
    pub open spec fn issue_done(old: App, new: App, id: Seq<char>, at: i64, saved: bool) -> bool {
        match (old.terminal.scanned_employee, old.terminal.scanned_tool, old.current_user) {
            (Some(employee), Some(tool), Some(user)) => {
                let available = old.db.available(tool.id@);
                let quantity = old.terminal.issue_quantity;
                &&& new.current_user == old.current_user
                &&& new.screen == old.screen
                &&& new.login == old.login
                &&& new.employee_form == old.employee_form
                &&& new.tool_form == old.tool_form
                &&& new.terminal.scan_input == old.terminal.scan_input
                &&& new.terminal.scanned_employee == old.terminal.scanned_employee
                &&& if quantity > available {
                    &&& !saved
                    &&& new.db == old.db
                    &&& new.terminal.error@ == crate::data::shortage_message(available)
                    &&& new.terminal.message == old.terminal.message
                    &&& new.terminal.scanned_tool == old.terminal.scanned_tool
                    &&& new.terminal.issue_quantity == old.terminal.issue_quantity
                } else {
                    &&& saved
                    &&& new.db.same_but_issuances(old.db)
                    &&& new.db.issuances@.len() == old.db.issuances@.len() + 1
                    &&& new.db.issuances@.drop_last() == old.db.issuances@
                    &&& App::is_terminal_issuance(
                        new.db.issuances@.last(),
                        id,
                        employee,
                        tool,
                        user,
                        quantity,
                        at,
                    )
                    &&& new.terminal.message@ == "Выдано: "@ + tool.name@ + " x"@ + decimal(
                        quantity as int,
                    )
                    &&& new.terminal.error == old.terminal.error
                    &&& new.terminal.scanned_tool is None
                    &&& new.terminal.issue_quantity == 1
                }
            },
            _ => !saved && new == old,
        }
    }

    /// The issue button with identifier `id` and time `at` for the new
    /// issuance (see `issue_done`); returns whether the store changed.
    pub fn issue_tool_with(&mut self, id: String, at: i64) -> (saved: bool)
        ensures
            old(self).access_consistent() ==> final(self).access_consistent(),
            old(self).issue_quantity_in_bounds() ==> final(self).issue_quantity_in_bounds(),
            App::issue_done(*old(self), *final(self), id@, at, saved),
    {
        let (employee_id, tool_id, tool_name, user_id) = match (
            &self.terminal.scanned_employee,
            &self.terminal.scanned_tool,
            &self.current_user,
        ) {
            (Some(employee), Some(tool), Some(user)) => (
                employee.id.clone(),
                tool.id.clone(),
                tool.name.clone(),
                user.id.clone(),
            ),
            _ => {
                return false;
            },
        };
        let quantity = self.terminal.issue_quantity;
        let issuance = Issuance {
            id,
            tool_id,
            employee_id,
            user_id,
            quantity,
            issued_at: at,
            returned_at: None,
        };
        match self.db.issue_tool(issuance) {
            Ok(()) => {
                proof {
                    assert(self.db.issuances@.drop_last() =~= old(self).db.issuances@);
                }
                let shown = i32_to_decimal(quantity);
                let head = str_concat("Выдано: ", tool_name.as_str());
                let head = str_concat(head.as_str(), " x");
                self.terminal.message = str_concat(head.as_str(), shown.as_str());
                self.terminal.scanned_tool = None;
                self.terminal.issue_quantity = 1;
                true
            },
            Err(e) => {
                self.terminal.error = e;
                false
            },
        }
    }

    /// The issue button: as `issue_tool_with`, with a fresh UUID and the
    /// current time for the new issuance.
    pub fn issue_tool(&mut self) -> (saved: bool)
        ensures
            old(self).access_consistent() ==> final(self).access_consistent(),
            old(self).issue_quantity_in_bounds() ==> final(self).issue_quantity_in_bounds(),
            exists|id: Seq<char>, at: i64| #[trigger] App::issue_done(*old(self), *final(self), id, at, saved),
            saved ==> is_uuid_v4_text(final(self).db.issuances@.last().id@),
    {
        if self.terminal.scanned_employee.is_none() || self.terminal.scanned_tool.is_none()
            || self.current_user.is_none() {
            proof {
                assert(App::issue_done(*old(self), *self, Seq::empty(), 0, false));
            }
            return false;
        }
        let id = new_uuid_string();
        let at = now_micros();
        self.issue_tool_with(id, at)
    }

    /// The return button of the terminal: marks the first issuance with
    /// identifier `issuance_id` as returned now (see `Database::return_tool`)
    /// and shows "Инструмент возвращен" ("tool returned"), found or not.
    /// Returns whether the store changed.
    pub fn return_issued_tool(&mut self, issuance_id: &str) -> (saved: bool)
        ensures
            old(self).access_consistent() ==> final(self).access_consistent(),
            final(self).db.same_but_issuances(old(self).db),
            match first_match(old(self).db.issuances@, Issuance::has_id(issuance_id@)) {
                Some(i) => saved && exists|t: i64|
                    final(self).db.issuances@ == old(self).db.issuances@.update(
                        i,
                        #[trigger] old(self).db.issuances@[i].returned_at_time(t),
                    ),
                None => !saved && final(self).db.issuances@ == old(self).db.issuances@,
            },
            final(self).current_user == old(self).current_user,
            final(self).screen == old(self).screen,
            final(self).login == old(self).login,
            final(self).employee_form == old(self).employee_form,
            final(self).tool_form == old(self).tool_form,
            final(self).terminal.scan_input == old(self).terminal.scan_input,
            final(self).terminal.scanned_employee == old(self).terminal.scanned_employee,
            final(self).terminal.scanned_tool == old(self).terminal.scanned_tool,
            final(self).terminal.issue_quantity == old(self).terminal.issue_quantity,
            final(self).terminal.error == old(self).terminal.error,
            final(self).terminal.message@ == "Инструмент возвращен"@,
    {
        let saved = self.db.return_tool(issuance_id);
        self.terminal.message = "Инструмент возвращен".to_owned();
        saved
    }
}

/// `e` is the employee record that the form `form` gives under identifier
/// `id`.
pub open spec fn is_form_employee(e: Employee, form: EmployeeForm, id: Seq<char>) -> bool {
    &&& e.id@ == id
    &&& e.name == form.name
    &&& e.position == form.position
    &&& e.department == form.department
    &&& e.qr_code@ == "EMP_"@ + utf8_byte_prefix(id, 8)
}

/// `t` is the tool record that the form `form` gives under identifier `id`.
pub open spec fn is_form_tool(t: Tool, form: ToolForm, id: Seq<char>) -> bool {
    &&& t.id@ == id
    &&& t.name == form.name
    &&& t.inventory_number == form.inventory
    &&& t.category_id == form.category
    &&& t.total_quantity == form.quantity
    &&& t.qr_code@ == "TOOL_"@ + utf8_byte_prefix(id, 8)
}

} // verus!

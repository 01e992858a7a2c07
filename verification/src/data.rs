//! The records of the store and the store itself: users, employees, tool
//! categories, tools and issuances, with the rules for looking them up,
//! changing them, issuing and returning tools, writing tools off and counting.
use vstd::prelude::*;
use crate::search::{
    first_match, is_first, lemma_filter_take_step, lemma_first_match_none, lemma_first_match_some,
    none_match,
};
use crate::arith::{
    lemma_wrap_add, lemma_wrap_small, lemma_wrap_sub, lemma_wrapping_add, lemma_wrapping_sub,
    wrap_i32,
};
use crate::runtime::{is_uuid_v4_text, new_uuid_string, now_micros};
use crate::text::{decimal, str_concat, i32_to_decimal, str_eq};

verus! {

/// What a user may do: administer the store or run the issuance terminal.
#[allow(non_camel_case_types)]
#[derive(Debug, Clone, Copy, PartialEq, Eq, Structural)]
pub enum Role {
    ADMIN,
    STOREKEEPER,
}

/// An account that can log in.
#[derive(Debug)]
pub struct User {
    pub id: String,
    pub username: String,
    pub password: String,
    pub name: String,
    pub role: Role,
}

/// An employee to whom tools are issued.
#[derive(Debug)]
pub struct Employee {
    pub id: String,
    pub name: String,
    pub position: String,
    pub department: String,
    pub qr_code: String,
}

/// A category of tools.
#[derive(Debug)]
pub struct Category {
    pub id: String,
    pub name: String,
}

/// A kind of tool and how many of it the store holds in all.
#[derive(Debug)]
pub struct Tool {
    pub id: String,
    pub name: String,
    pub inventory_number: String,
    pub category_id: String,
    pub total_quantity: i32,
    pub qr_code: String,
}

/// A number of tools of one kind issued to an employee. Times are
/// microseconds since the Unix epoch; `returned_at` is `None` while the tools
/// are out.
#[derive(Debug)]
pub struct Issuance {
    pub id: String,
    pub tool_id: String,
    pub employee_id: String,
    pub user_id: String,
    pub quantity: i32,
    pub issued_at: i64,
    pub returned_at: Option<i64>,
}

impl Clone for User {
    fn clone(&self) -> (r: Self)
        ensures
            r == *self,
    {
        User {
            id: self.id.clone(),
            username: self.username.clone(),
            password: self.password.clone(),
            name: self.name.clone(),
            role: self.role,
        }
    }
}

impl Clone for Employee {
    fn clone(&self) -> (r: Self)
        ensures
            r == *self,
    {
        Employee {
            id: self.id.clone(),
            name: self.name.clone(),
            position: self.position.clone(),
            department: self.department.clone(),
            qr_code: self.qr_code.clone(),
        }
    }
}

impl Clone for Category {
    fn clone(&self) -> (r: Self)
        ensures
            r == *self,
    {
        Category { id: self.id.clone(), name: self.name.clone() }
    }
}

impl Clone for Tool {
    fn clone(&self) -> (r: Self)
        ensures
            r == *self,
    {
        Tool {
            id: self.id.clone(),
            name: self.name.clone(),
            inventory_number: self.inventory_number.clone(),
            category_id: self.category_id.clone(),
            total_quantity: self.total_quantity,
            qr_code: self.qr_code.clone(),
        }
    }
}

impl Clone for Issuance {
    fn clone(&self) -> (r: Self)
        ensures
            r == *self,
    {
        Issuance {
            id: self.id.clone(),
            tool_id: self.tool_id.clone(),
            employee_id: self.employee_id.clone(),
            user_id: self.user_id.clone(),
            quantity: self.quantity,
            issued_at: self.issued_at,
            returned_at: self.returned_at,
        }
    }
}

impl User {
    /// The user logs in with exactly this username and password.
    pub open spec fn has_login(username: Seq<char>, password: Seq<char>) -> spec_fn(User) -> bool {
        |u: User| u.username@ == username && u.password@ == password
    }
}

impl Employee {
    /// The employee has this identifier.
    pub open spec fn has_id(id: Seq<char>) -> spec_fn(Employee) -> bool {
        |e: Employee| e.id@ == id
    }

    /// The employee has another identifier.
    pub open spec fn lacks_id(id: Seq<char>) -> spec_fn(Employee) -> bool {
        |e: Employee| e.id@ != id
    }

    /// The employee carries this QR code.
    pub open spec fn has_qr(qr: Seq<char>) -> spec_fn(Employee) -> bool {
        |e: Employee| e.qr_code@ == qr
    }
}

impl Category {
    /// The category has this identifier.
    pub open spec fn has_id(id: Seq<char>) -> spec_fn(Category) -> bool {
        |c: Category| c.id@ == id
    }

    /// The category has another identifier.
    pub open spec fn lacks_id(id: Seq<char>) -> spec_fn(Category) -> bool {
        |c: Category| c.id@ != id
    }
}

impl Tool {
    /// The tool has this identifier.
    pub open spec fn has_id(id: Seq<char>) -> spec_fn(Tool) -> bool {
        |t: Tool| t.id@ == id
    }

    /// The tool has another identifier.
    pub open spec fn lacks_id(id: Seq<char>) -> spec_fn(Tool) -> bool {
        |t: Tool| t.id@ != id
    }

    /// The tool carries this QR code.
    pub open spec fn has_qr(qr: Seq<char>) -> spec_fn(Tool) -> bool {
        |t: Tool| t.qr_code@ == qr
    }
}

impl Issuance {
    /// The issuance has this identifier.
    pub open spec fn has_id(id: Seq<char>) -> spec_fn(Issuance) -> bool {
        |i: Issuance| i.id@ == id
    }

    /// The tools of this issuance have not been returned.
    pub open spec fn is_active(self) -> bool {
        self.returned_at is None
    }

    /// The issuance is active.
    pub open spec fn active() -> spec_fn(Issuance) -> bool {
        |i: Issuance| i.is_active()
    }

    /// The issuance is active and was made to this employee.
    pub open spec fn active_for(employee_id: Seq<char>) -> spec_fn(Issuance) -> bool {
        |i: Issuance| i.employee_id@ == employee_id && i.is_active()
    }
}

/// The quantity of the tool `tool_id` that active issuances in `s` hold.
pub open spec fn active_quantity(s: Seq<Issuance>, tool_id: Seq<char>) -> int
    decreases s.len(),
{
    if s.len() == 0 {
        0
    } else {
        active_quantity(s.drop_last(), tool_id) + held_quantity(s.last(), tool_id)
    }
}

/// The quantity of tool `tool_id` that issuance `iss` holds: its quantity
/// while it is active and for that tool, 0 otherwise.
pub open spec fn held_quantity(iss: Issuance, tool_id: Seq<char>) -> int {
    if iss.tool_id@ == tool_id && iss.is_active() {
        iss.quantity as int
    } else {
        0
    }
}

/// The quantity that all active issuances in `s` hold.
pub open spec fn active_total(s: Seq<Issuance>) -> int
    decreases s.len(),
{
    if s.len() == 0 {
        0
    } else {
        active_total(s.drop_last()) + if s.last().is_active() {
            s.last().quantity as int
        } else {
            0
        }
    }
}

/// The number of active issuances in `s`.
pub open spec fn active_count(s: Seq<Issuance>) -> nat
    decreases s.len(),
{
    if s.len() == 0 {
        0
    } else {
        active_count(s.drop_last()) + if s.last().is_active() {
            1nat
        } else {
            0nat
        }
    }
}

/// The total quantity of all tools in `s`.
pub open spec fn tool_total(s: Seq<Tool>) -> int
    decreases s.len(),
{
    if s.len() == 0 {
        0
    } else {
        tool_total(s.drop_last()) + s.last().total_quantity
    }
}

/// The figures of the overview screen.
#[derive(Debug, Clone, Copy, PartialEq, Eq, Structural)]
pub struct Stats {
    pub total_employees: i32,
    pub total_tools: i32,
    pub total_tool_quantity: i32,
    pub active_issuances: i32,
    pub issued_quantity: i32,
    pub available_quantity: i32,
}

/// Everything the store holds.
#[derive(Debug)]
pub struct Database {
    pub users: Vec<User>,
    pub employees: Vec<Employee>,
    pub categories: Vec<Category>,
    pub tools: Vec<Tool>,
    pub issuances: Vec<Issuance>,
}

impl Clone for Database {
    fn clone(&self) -> (r: Self)
        ensures
            r.users@ == self.users@,
            r.employees@ == self.employees@,
            r.categories@ == self.categories@,
            r.tools@ == self.tools@,
            r.issuances@ == self.issuances@,
    {
        let users = self.users.clone();
        let employees = self.employees.clone();
        let categories = self.categories.clone();
        let tools = self.tools.clone();
        let issuances = self.issuances.clone();
        proof {
            assert(users@ =~= self.users@);
            assert(employees@ =~= self.employees@);
            assert(categories@ =~= self.categories@);
            assert(tools@ =~= self.tools@);
            assert(issuances@ =~= self.issuances@);
        }
        Database { users, employees, categories, tools, issuances }
    }
}

impl Default for Database {
    fn default() -> (r: Self)
        ensures
            r.users@.len() == 0,
            r.employees@.len() == 0,
            r.categories@.len() == 0,
            r.tools@.len() == 0,
            r.issuances@.len() == 0,
    {
        Database {
            users: Vec::new(),
            employees: Vec::new(),
            categories: Vec::new(),
            tools: Vec::new(),
            issuances: Vec::new(),
        }
    }
}

impl Database {
    /// The user found by `authenticate`: the first one with this username and
    /// password.
    pub open spec fn login_match(self, username: Seq<char>, password: Seq<char>) -> Option<int> {
        first_match(self.users@, User::has_login(username, password))
    }

    /// Looks up the first user whose username and password are exactly the
    /// given ones.
    pub fn authenticate(&self, username: &str, password: &str) -> (r: Option<&User>)
        ensures
            match self.login_match(username@, password@) {
                Some(i) => r == Some(&self.users@[i]),
                None => r is None,
            },
    {
        let ghost p = User::has_login(username@, password@);
        let mut i: usize = 0;
        while i < self.users.len()
            invariant
                i <= self.users@.len(),
                p == User::has_login(username@, password@),
                forall|j: int| 0 <= j < i ==> !p(#[trigger] self.users@[j]),
            decreases self.users@.len() - i,
        {
            let u = &self.users[i];
            if str_eq(u.username.as_str(), username) && str_eq(u.password.as_str(), password) {
                proof {
                    assert(is_first(self.users@, i as int, p));
                    lemma_first_match_some(self.users@, i as int, p);
                }
                return Some(u);
            }
            i = i + 1;
        }
        proof {
            lemma_first_match_none(self.users@, p);
        }
        None
    }

    /// The stores `self` and `other` hold the same users, categories, tools
    /// and issuances.
    pub open spec fn same_but_employees(self, other: Database) -> bool {
        &&& self.users@ == other.users@
        &&& self.categories@ == other.categories@
        &&& self.tools@ == other.tools@
        &&& self.issuances@ == other.issuances@
    }

    /// The position of the first employee with identifier `id`.
    fn employee_position(&self, id: &str) -> (r: Option<usize>)
        ensures
            r matches Some(k) ==> is_first(self.employees@, k as int, Employee::has_id(id@)),
            r is None ==> none_match(self.employees@, Employee::has_id(id@)),
    {
        let ghost p = Employee::has_id(id@);
        let mut i: usize = 0;
        while i < self.employees.len()
            invariant
                i <= self.employees@.len(),
                p == Employee::has_id(id@),
                forall|j: int| 0 <= j < i ==> !p(#[trigger] self.employees@[j]),
            decreases self.employees@.len() - i,
        {
            if str_eq(self.employees[i].id.as_str(), id) {
                return Some(i);
            }
            i = i + 1;
        }
        None
    }

    /// Appends an employee.
    pub fn add_employee(&mut self, employee: Employee)
        ensures
            final(self).employees@ == old(self).employees@.push(employee),
            final(self).same_but_employees(*old(self)),
    {
        self.employees.push(employee);
    }

    /// Replaces the first employee with the same identifier as `employee`;
    /// returns whether there was one (the store is unchanged otherwise).
    pub fn update_employee(&mut self, employee: Employee) -> (r: bool)
        ensures
            match first_match(old(self).employees@, Employee::has_id(employee.id@)) {
                Some(i) => r && final(self).employees@ == old(self).employees@.update(i, employee),
                None => !r && final(self).employees@ == old(self).employees@,
            },
            final(self).same_but_employees(*old(self)),
    {
        match self.employee_position(employee.id.as_str()) {
            Some(k) => {
                proof {
                    lemma_first_match_some(self.employees@, k as int, Employee::has_id(employee.id@));
                }
                self.employees.set(k, employee);
                true
            },
            None => {
                proof {
                    lemma_first_match_none(self.employees@, Employee::has_id(employee.id@));
                }
                false
            },
        }
    }

    /// Removes every employee with identifier `id`, keeping the others in
    /// order.
    pub fn delete_employee(&mut self, id: &str)
        ensures
            final(self).employees@ == old(self).employees@.filter(Employee::lacks_id(id@)),
            final(self).same_but_employees(*old(self)),
    {
        let ghost p = Employee::lacks_id(id@);
        let ghost s = self.employees@;
        let mut kept: Vec<Employee> = Vec::new();
        let mut i: usize = 0;
        while i < self.employees.len()
            invariant
                i <= s.len(),
                s == self.employees@,
                p == Employee::lacks_id(id@),
                kept@ == s.take(i as int).filter(p),
            decreases s.len() - i,
        {
            proof {
                lemma_filter_take_step(s, i as int, p);
            }
            if !str_eq(self.employees[i].id.as_str(), id) {
                kept.push(self.employees[i].clone());
            }
            i = i + 1;
        }
        proof {
            assert(s.take(s.len() as int) =~= s);
        }
        self.employees = kept;
    }

    /// The first employee carrying QR code `qr_code`.
    pub fn get_employee_by_qr(&self, qr_code: &str) -> (r: Option<&Employee>)
        ensures
            match first_match(self.employees@, Employee::has_qr(qr_code@)) {
                Some(i) => r == Some(&self.employees@[i]),
                None => r is None,
            },
    {
        let ghost p = Employee::has_qr(qr_code@);
        let mut i: usize = 0;
        while i < self.employees.len()
            invariant
                i <= self.employees@.len(),
                p == Employee::has_qr(qr_code@),
                forall|j: int| 0 <= j < i ==> !p(#[trigger] self.employees@[j]),
            decreases self.employees@.len() - i,
        {
            if str_eq(self.employees[i].qr_code.as_str(), qr_code) {
                proof {
                    assert(is_first(self.employees@, i as int, p));
                    lemma_first_match_some(self.employees@, i as int, p);
                }
                return Some(&self.employees[i]);
            }
            i = i + 1;
        }
        proof {
            lemma_first_match_none(self.employees@, p);
        }
        None
    }

    /// The stores `self` and `other` hold the same users, employees,
    /// categories and issuances.
    pub open spec fn same_but_tools(self, other: Database) -> bool {
        &&& self.users@ == other.users@
        &&& self.employees@ == other.employees@
        &&& self.categories@ == other.categories@
        &&& self.issuances@ == other.issuances@
    }

    /// The stores `self` and `other` hold the same users, employees, tools
    /// and issuances.
    pub open spec fn same_but_categories(self, other: Database) -> bool {
        &&& self.users@ == other.users@
        &&& self.employees@ == other.employees@
        &&& self.tools@ == other.tools@
        &&& self.issuances@ == other.issuances@
    }

    /// The stores `self` and `other` hold the same users, employees,
    /// categories and tools.
    pub open spec fn same_but_issuances(self, other: Database) -> bool {
        &&& self.users@ == other.users@
        &&& self.employees@ == other.employees@
        &&& self.categories@ == other.categories@
        &&& self.tools@ == other.tools@
    }

    /// The position of the first tool with identifier `id`.
    fn tool_position(&self, id: &str) -> (r: Option<usize>)
        ensures
            r matches Some(k) ==> is_first(self.tools@, k as int, Tool::has_id(id@)),
            r is None ==> none_match(self.tools@, Tool::has_id(id@)),
    {
        let ghost p = Tool::has_id(id@);
        let mut i: usize = 0;
        while i < self.tools.len()
            invariant
                i <= self.tools@.len(),
                p == Tool::has_id(id@),
                forall|j: int| 0 <= j < i ==> !p(#[trigger] self.tools@[j]),
            decreases self.tools@.len() - i,
        {
            if str_eq(self.tools[i].id.as_str(), id) {
                return Some(i);
            }
            i = i + 1;
        }
        None
    }

    /// Appends a tool.
    pub fn add_tool(&mut self, tool: Tool)
        ensures
            final(self).tools@ == old(self).tools@.push(tool),
            final(self).same_but_tools(*old(self)),
    {
        self.tools.push(tool);
    }

    /// Replaces the first tool with the same identifier as `tool`; returns
    /// whether there was one (the store is unchanged otherwise).
    pub fn update_tool(&mut self, tool: Tool) -> (r: bool)
        ensures
            match first_match(old(self).tools@, Tool::has_id(tool.id@)) {
                Some(i) => r && final(self).tools@ == old(self).tools@.update(i, tool),
                None => !r && final(self).tools@ == old(self).tools@,
            },
            final(self).same_but_tools(*old(self)),
    {
        match self.tool_position(tool.id.as_str()) {
            Some(k) => {
                proof {
                    lemma_first_match_some(self.tools@, k as int, Tool::has_id(tool.id@));
                }
                self.tools.set(k, tool);
                true
            },
            None => {
                proof {
                    lemma_first_match_none(self.tools@, Tool::has_id(tool.id@));
                }
                false
            },
        }
    }

    /// Removes every tool with identifier `id`, keeping the others in order.
    pub fn delete_tool(&mut self, id: &str)
        ensures
            final(self).tools@ == old(self).tools@.filter(Tool::lacks_id(id@)),
            final(self).same_but_tools(*old(self)),
    {
        let ghost p = Tool::lacks_id(id@);
        let ghost s = self.tools@;
        let mut kept: Vec<Tool> = Vec::new();
        let mut i: usize = 0;
        while i < self.tools.len()
            invariant
                i <= s.len(),
                s == self.tools@,
                p == Tool::lacks_id(id@),
                kept@ == s.take(i as int).filter(p),
            decreases s.len() - i,
        {
            proof {
                lemma_filter_take_step(s, i as int, p);
            }
            if !str_eq(self.tools[i].id.as_str(), id) {
                kept.push(self.tools[i].clone());
            }
            i = i + 1;
        }
        proof {
            assert(s.take(s.len() as int) =~= s);
        }
        self.tools = kept;
    }

    /// The first tool carrying QR code `qr_code`.
    pub fn get_tool_by_qr(&self, qr_code: &str) -> (r: Option<&Tool>)
        ensures
            match first_match(self.tools@, Tool::has_qr(qr_code@)) {
                Some(i) => r == Some(&self.tools@[i]),
                None => r is None,
            },
    {
        let ghost p = Tool::has_qr(qr_code@);
        let mut i: usize = 0;
        while i < self.tools.len()
            invariant
                i <= self.tools@.len(),
                p == Tool::has_qr(qr_code@),
                forall|j: int| 0 <= j < i ==> !p(#[trigger] self.tools@[j]),
            decreases self.tools@.len() - i,
        {
            if str_eq(self.tools[i].qr_code.as_str(), qr_code) {
                proof {
                    assert(is_first(self.tools@, i as int, p));
                    lemma_first_match_some(self.tools@, i as int, p);
                }
                return Some(&self.tools[i]);
            }
            i = i + 1;
        }
        proof {
            lemma_first_match_none(self.tools@, p);
        }
        None
    }

    /// The first tool with identifier `id`.
    pub fn tool_by_id(&self, id: &str) -> (r: Option<&Tool>)
        ensures
            match first_match(self.tools@, Tool::has_id(id@)) {
                Some(i) => r == Some(&self.tools@[i]),
                None => r is None,
            },
    {
        match self.tool_position(id) {
            Some(k) => {
                proof {
                    lemma_first_match_some(self.tools@, k as int, Tool::has_id(id@));
                }
                Some(&self.tools[k])
            },
            None => {
                proof {
                    lemma_first_match_none(self.tools@, Tool::has_id(id@));
                }
                None
            },
        }
    }

    /// The first employee with identifier `id`.
    pub fn employee_by_id(&self, id: &str) -> (r: Option<&Employee>)
        ensures
            match first_match(self.employees@, Employee::has_id(id@)) {
                Some(i) => r == Some(&self.employees@[i]),
                None => r is None,
            },
    {
        match self.employee_position(id) {
            Some(k) => {
                proof {
                    lemma_first_match_some(self.employees@, k as int, Employee::has_id(id@));
                }
                Some(&self.employees[k])
            },
            None => {
                proof {
                    lemma_first_match_none(self.employees@, Employee::has_id(id@));
                }
                None
            },
        }
    }

    /// The position of the first category with identifier `id`.
    fn category_position(&self, id: &str) -> (r: Option<usize>)
        ensures
            r matches Some(k) ==> is_first(self.categories@, k as int, Category::has_id(id@)),
            r is None ==> none_match(self.categories@, Category::has_id(id@)),
    {
        let ghost p = Category::has_id(id@);
        let mut i: usize = 0;
        while i < self.categories.len()
            invariant
                i <= self.categories@.len(),
                p == Category::has_id(id@),
                forall|j: int| 0 <= j < i ==> !p(#[trigger] self.categories@[j]),
            decreases self.categories@.len() - i,
        {
            if str_eq(self.categories[i].id.as_str(), id) {
                return Some(i);
            }
            i = i + 1;
        }
        None
    }

    /// The name shown for category `category_id`: the name of the first
    /// category with that identifier, or "Без категории" ("no category").
    pub fn get_category_name(&self, category_id: &str) -> (r: String)
        ensures
            r@ == match first_match(self.categories@, Category::has_id(category_id@)) {
                Some(i) => self.categories@[i].name@,
                None => "Без категории"@,
            },
    {
        match self.category_position(category_id) {
            Some(k) => {
                proof {
                    lemma_first_match_some(self.categories@, k as int, Category::has_id(category_id@));
                }
                self.categories[k].name.clone()
            },
            None => {
                proof {
                    lemma_first_match_none(self.categories@, Category::has_id(category_id@));
                }
                "Без категории".to_owned()
            },
        }
    }

    /// Appends a category.
    pub fn add_category(&mut self, category: Category)
        ensures
            final(self).categories@ == old(self).categories@.push(category),
            final(self).same_but_categories(*old(self)),
    {
        self.categories.push(category);
    }

    /// Replaces the first category with the same identifier as `category`;
    /// returns whether there was one (the store is unchanged otherwise).
    pub fn update_category(&mut self, category: Category) -> (r: bool)
        ensures
            match first_match(old(self).categories@, Category::has_id(category.id@)) {
                Some(i) => r && final(self).categories@ == old(self).categories@.update(
                    i,
                    category,
                ),
                None => !r && final(self).categories@ == old(self).categories@,
            },
            final(self).same_but_categories(*old(self)),
    {
        match self.category_position(category.id.as_str()) {
            Some(k) => {
                proof {
                    lemma_first_match_some(self.categories@, k as int, Category::has_id(category.id@));
                }
                self.categories.set(k, category);
                true
            },
            None => {
                proof {
                    lemma_first_match_none(self.categories@, Category::has_id(category.id@));
                }
                false
            },
        }
    }

    /// Removes every category with identifier `id`, keeping the others in
    /// order.
    pub fn delete_category(&mut self, id: &str)
        ensures
            final(self).categories@ == old(self).categories@.filter(Category::lacks_id(id@)),
            final(self).same_but_categories(*old(self)),
    {
        let ghost p = Category::lacks_id(id@);
        let ghost s = self.categories@;
        let mut kept: Vec<Category> = Vec::new();
        let mut i: usize = 0;
        while i < self.categories.len()
            invariant
                i <= s.len(),
                s == self.categories@,
                p == Category::lacks_id(id@),
                kept@ == s.take(i as int).filter(p),
            decreases s.len() - i,
        {
            proof {
                lemma_filter_take_step(s, i as int, p);
            }
            if !str_eq(self.categories[i].id.as_str(), id) {
                kept.push(self.categories[i].clone());
            }
            i = i + 1;
        }
        proof {
            assert(s.take(s.len() as int) =~= s);
        }
        self.categories = kept;
    }

    /// The quantity of tool `tool_id` that can still be issued: its total
    /// quantity less what active issuances hold (wrapped to `i32`), or 0 when
    /// no tool has that identifier.
    pub open spec fn available(self, tool_id: Seq<char>) -> int {
        match first_match(self.tools@, Tool::has_id(tool_id)) {
            Some(i) => wrap_i32(
                self.tools@[i].total_quantity - active_quantity(self.issuances@, tool_id),
            ),
            None => 0,
        }
    }

    /// The quantity of tool `tool_id` that active issuances hold, added up
    /// with `i32` wrapping.
    pub fn get_issued_quantity(&self, tool_id: &str) -> (r: i32)
        ensures
            r as int == wrap_i32(active_quantity(self.issuances@, tool_id@)),
    {
        let ghost s = self.issuances@;
        let mut total: i32 = 0;
        let mut i: usize = 0;
        proof {
            lemma_wrap_small(0);
        }
        while i < self.issuances.len()
            invariant
                i <= s.len(),
                s == self.issuances@,
                total as int == wrap_i32(active_quantity(s.take(i as int), tool_id@)),
            decreases s.len() - i,
        {
            let iss = &self.issuances[i];
            proof {
                assert(s.take(i + 1).drop_last() =~= s.take(i as int));
                assert(s.take(i + 1).last() == s[i as int]);
            }
            if str_eq(iss.tool_id.as_str(), tool_id) && iss.returned_at.is_none() {
                proof {
                    lemma_wrapping_add(total, iss.quantity);
                    lemma_wrap_add(active_quantity(s.take(i as int), tool_id@), iss.quantity as int);
                }
                total = total.wrapping_add(iss.quantity);
            }
            i = i + 1;
        }
        proof {
            assert(s.take(s.len() as int) =~= s);
        }
        total
    }

    /// The quantity of tool `tool_id` that can still be issued (see
    /// `available`).
    pub fn get_available_quantity(&self, tool_id: &str) -> (r: i32)
        ensures
            r as int == self.available(tool_id@),
    {
        match self.tool_by_id(tool_id) {
            Some(tool) => {
                let issued = self.get_issued_quantity(tool_id);
                proof {
                    lemma_wrapping_sub(tool.total_quantity, issued);
                    lemma_wrap_sub(
                        tool.total_quantity as int,
                        active_quantity(self.issuances@, tool_id@),
                    );
                }
                tool.total_quantity.wrapping_sub(issued)
            },
            None => 0,
        }
    }

    /// What can still be issued of `tool`: its total quantity less what active
    /// issuances of its identifier hold, wrapped to `i32`.
    pub fn available_for(&self, tool: &Tool) -> (r: i32)
        ensures
            r as int == wrap_i32(tool.total_quantity - active_quantity(self.issuances@, tool.id@)),
    {
        let issued = self.get_issued_quantity(tool.id.as_str());
        proof {
            lemma_wrapping_sub(tool.total_quantity, issued);
            lemma_wrap_sub(tool.total_quantity as int, active_quantity(self.issuances@, tool.id@));
        }
        tool.total_quantity.wrapping_sub(issued)
    }

    /// Records `issuance` when its quantity does not exceed what is available
    /// of its tool; otherwise refuses with `shortage_message` and leaves the
    /// store as it was.
    pub fn issue_tool(&mut self, issuance: Issuance) -> (r: Result<(), String>)
        ensures
            issuance.quantity > old(self).available(issuance.tool_id@) ==> {
                &&& r matches Err(e) && e@ == shortage_message(
                    old(self).available(issuance.tool_id@),
                )
                &&& *final(self) == *old(self)
            },
            issuance.quantity <= old(self).available(issuance.tool_id@) ==> {
                &&& r is Ok
                &&& final(self).issuances@ == old(self).issuances@.push(issuance)
                &&& final(self).same_but_issuances(*old(self))
            },
    {
        let available = self.get_available_quantity(issuance.tool_id.as_str());
        if issuance.quantity > available {
            let shown = i32_to_decimal(available);
            return Err(str_concat("Недостаточно инструментов. Доступно: ", shown.as_str()));
        }
        self.issuances.push(issuance);
        Ok(())
    }

    /// Marks the first issuance with identifier `issuance_id` as returned at
    /// time `at`; returns whether there was one (the store is unchanged
    /// otherwise).
    pub fn return_tool_at(&mut self, issuance_id: &str, at: i64) -> (r: bool)
        ensures
            match first_match(old(self).issuances@, Issuance::has_id(issuance_id@)) {
                Some(i) => r && final(self).issuances@ == old(self).issuances@.update(
                    i,
                    old(self).issuances@[i].returned_at_time(at),
                ),
                None => !r && final(self).issuances@ == old(self).issuances@,
            },
            final(self).same_but_issuances(*old(self)),
    {
        let ghost p = Issuance::has_id(issuance_id@);
        let mut i: usize = 0;
        while i < self.issuances.len()
            invariant
                i <= self.issuances@.len(),
                *self == *old(self),
                p == Issuance::has_id(issuance_id@),
                forall|j: int| 0 <= j < i ==> !p(#[trigger] self.issuances@[j]),
            decreases self.issuances@.len() - i,
        {
            if str_eq(self.issuances[i].id.as_str(), issuance_id) {
                proof {
                    assert(is_first(self.issuances@, i as int, p));
                    lemma_first_match_some(self.issuances@, i as int, p);
                }
                let mut returned = self.issuances[i].clone();
                returned.returned_at = Some(at);
                self.issuances.set(i, returned);
                return true;
            }
            i = i + 1;
        }
        proof {
            lemma_first_match_none(self.issuances@, p);
        }
        false
    }

    /// Marks the first issuance with identifier `issuance_id` as returned now
    /// (the time is read from the clock); returns whether there was one.
    pub fn return_tool(&mut self, issuance_id: &str) -> (r: bool)
        ensures
            match first_match(old(self).issuances@, Issuance::has_id(issuance_id@)) {
                Some(i) => r && exists|t: i64|
                    final(self).issuances@ == old(self).issuances@.update(
                        i,
                        #[trigger] old(self).issuances@[i].returned_at_time(t),
                    ),
                None => !r && final(self).issuances@ == old(self).issuances@,
            },
            final(self).same_but_issuances(*old(self)),
    {
        let now = now_micros();
        self.return_tool_at(issuance_id, now)
    }

    /// Reduces the total quantity of the first tool with identifier `tool_id`
    /// by `quantity` (with `i32` wrapping), provided `quantity` does not
    /// exceed what is available. Refuses with `write_off_message` when it
    /// does, and with "Инструмент не найден" ("tool not found") when there is
    /// no such tool; a refusal leaves the store as it was.
    pub fn write_off_tool(&mut self, tool_id: &str, quantity: i32) -> (r: Result<(), String>)
        ensures
            match first_match(old(self).tools@, Tool::has_id(tool_id@)) {
                None => {
                    &&& r matches Err(e) && e@ == "Инструмент не найден"@
                    &&& *final(self) == *old(self)
                },
                Some(i) => if quantity > old(self).available(tool_id@) {
                    &&& r matches Err(e) && e@ == write_off_message(old(self).available(tool_id@))
                    &&& *final(self) == *old(self)
                } else {
                    &&& r is Ok
                    &&& final(self).tools@ == old(self).tools@.update(
                        i,
                        old(self).tools@[i].with_total(
                            wrap_i32(old(self).tools@[i].total_quantity - quantity) as i32,
                        ),
                    )
                    &&& final(self).same_but_tools(*old(self))
                },
            },
    {
        let issued = self.get_issued_quantity(tool_id);
        match self.tool_position(tool_id) {
            Some(k) => {
                proof {
                    lemma_first_match_some(self.tools@, k as int, Tool::has_id(tool_id@));
                    lemma_wrapping_sub(self.tools@[k as int].total_quantity, issued);
                    lemma_wrap_sub(
                        self.tools@[k as int].total_quantity as int,
                        active_quantity(self.issuances@, tool_id@),
                    );
                }
                let available = self.tools[k].total_quantity.wrapping_sub(issued);
                if quantity > available {
                    let shown = i32_to_decimal(available);
                    return Err(
                        str_concat("Нельзя списать больше чем доступно. Доступно: ", shown.as_str()),
                    );
                }
                let mut tool = self.tools[k].clone();
                proof {
                    lemma_wrapping_sub(tool.total_quantity, quantity);
                }
                tool.total_quantity = tool.total_quantity.wrapping_sub(quantity);
                self.tools.set(k, tool);
                Ok(())
            },
            None => {
                proof {
                    lemma_first_match_none(self.tools@, Tool::has_id(tool_id@));
                }
                Err("Инструмент не найден".to_owned())
            },
        }
    }

    /// The issuances whose tools are still out, in order.
    pub fn get_active_issuances(&self) -> (r: Vec<&Issuance>)
        ensures
            r@.map_values(|x: &Issuance| *x) == self.issuances@.filter(Issuance::active()),
            forall|k: int| 0 <= k < r@.len() ==> (#[trigger] r@[k]).returned_at is None,
            forall|j: int|
                0 <= j < self.issuances@.len() && (#[trigger] self.issuances@[j]).returned_at
                    is None ==> r@.map_values(|x: &Issuance| *x).contains(self.issuances@[j]),
    {
        let ghost s = self.issuances@;
        let ghost p = Issuance::active();
        let mut out: Vec<&Issuance> = Vec::new();
        let mut i: usize = 0;
        while i < self.issuances.len()
            invariant
                i <= s.len(),
                s == self.issuances@,
                p == Issuance::active(),
                out@.map_values(|x: &Issuance| *x) == s.take(i as int).filter(p),
            decreases s.len() - i,
        {
            proof {
                lemma_filter_take_step(s, i as int, p);
            }
            let ghost before = out@;
            if self.issuances[i].returned_at.is_none() {
                out.push(&self.issuances[i]);
                proof {
                    assert(out@.map_values(|x: &Issuance| *x) =~= before.map_values(
                        |x: &Issuance| *x,
                    ).push(s[i as int]));
                }
            }
            i = i + 1;
        }
        proof {
            assert(s.take(s.len() as int) =~= s);
            let m = out@.map_values(|x: &Issuance| *x);
            assert forall|k: int| 0 <= k < out@.len() implies (#[trigger] out@[k]).returned_at
                is None by {
                s.lemma_filter_pred(p, k);
                assert(m[k] == *out@[k]);
                assert(p(*out@[k]));
            }
            assert forall|j: int|
                0 <= j < s.len() && (#[trigger] s[j]).returned_at is None implies m.contains(
                    s[j],
                ) by {
                assert(p(s[j]));
                s.lemma_filter_contains(p, j);
            }
        }
        out
    }

    /// The issuances to employee `employee_id` whose tools are still out, in
    /// order.
    pub fn get_employee_active_issuances(&self, employee_id: &str) -> (r: Vec<&Issuance>)
        ensures
            r@.map_values(|x: &Issuance| *x) == self.issuances@.filter(
                Issuance::active_for(employee_id@),
            ),
            forall|k: int|
                0 <= k < r@.len() ==> (#[trigger] r@[k]).returned_at is None
                    && r@[k].employee_id@ == employee_id@,
            forall|j: int|
                0 <= j < self.issuances@.len() && (#[trigger] self.issuances@[j]).returned_at
                    is None && self.issuances@[j].employee_id@ == employee_id@ ==> r@.map_values(
                    |x: &Issuance| *x,
                ).contains(self.issuances@[j]),
    {
        let ghost s = self.issuances@;
        let ghost p = Issuance::active_for(employee_id@);
        let mut out: Vec<&Issuance> = Vec::new();
        let mut i: usize = 0;
        while i < self.issuances.len()
            invariant
                i <= s.len(),
                s == self.issuances@,
                p == Issuance::active_for(employee_id@),
                out@.map_values(|x: &Issuance| *x) == s.take(i as int).filter(p),
            decreases s.len() - i,
        {
            proof {
                lemma_filter_take_step(s, i as int, p);
            }
            let ghost before = out@;
            let iss = &self.issuances[i];
            if str_eq(iss.employee_id.as_str(), employee_id) && iss.returned_at.is_none() {
                out.push(iss);
                proof {
                    assert(out@.map_values(|x: &Issuance| *x) =~= before.map_values(
                        |x: &Issuance| *x,
                    ).push(s[i as int]));
                }
            }
            i = i + 1;
        }
        proof {
            assert(s.take(s.len() as int) =~= s);
            let m = out@.map_values(|x: &Issuance| *x);
            assert forall|k: int| 0 <= k < out@.len() implies (#[trigger] out@[k]).returned_at
                is None && out@[k].employee_id@ == employee_id@ by {
                s.lemma_filter_pred(p, k);
                assert(m[k] == *out@[k]);
                assert(p(*out@[k]));
            }
            assert forall|j: int|
                0 <= j < s.len() && (#[trigger] s[j]).returned_at is None && s[j].employee_id@
                    == employee_id@ implies m.contains(s[j]) by {
                assert(p(s[j]));
                s.lemma_filter_contains(p, j);
            }
        }
        out
    }

    /// The figures of the overview: the numbers of employees, of tools and of
    /// active issuances (each cast to `i32`), the total quantity of all tools
    /// and the quantity that active issuances hold (each added up with `i32`
    /// wrapping), and the quantity available: the total less what is issued,
    /// wrapped to `i32`.
    pub fn get_stats(&self) -> (r: Stats)
        ensures
            r.total_employees == self.employees@.len() as i32,
            r.total_tools == self.tools@.len() as i32,
            r.total_tool_quantity as int == wrap_i32(tool_total(self.tools@)),
            r.active_issuances == active_count(self.issuances@) as i32,
            r.issued_quantity as int == wrap_i32(active_total(self.issuances@)),
            r.available_quantity as int == wrap_i32(
                tool_total(self.tools@) - active_total(self.issuances@),
            ),
    {
        let ghost tools = self.tools@;
        let mut tool_quantity: i32 = 0;
        let mut i: usize = 0;
        proof {
            lemma_wrap_small(0);
        }
        while i < self.tools.len()
            invariant
                i <= tools.len(),
                tools == self.tools@,
                tool_quantity as int == wrap_i32(tool_total(tools.take(i as int))),
            decreases tools.len() - i,
        {
            proof {
                assert(tools.take(i + 1).drop_last() =~= tools.take(i as int));
                assert(tools.take(i + 1).last() == tools[i as int]);
                lemma_wrapping_add(tool_quantity, self.tools[i as int].total_quantity);
                lemma_wrap_add(
                    tool_total(tools.take(i as int)),
                    self.tools[i as int].total_quantity as int,
                );
            }
            tool_quantity = tool_quantity.wrapping_add(self.tools[i].total_quantity);
            i = i + 1;
        }
        proof {
            assert(tools.take(tools.len() as int) =~= tools);
        }
        let ghost s = self.issuances@;
        let mut count: usize = 0;
        let mut issued: i32 = 0;
        let mut j: usize = 0;
        while j < self.issuances.len()
            invariant
                j <= s.len(),
                s == self.issuances@,
                count == active_count(s.take(j as int)),
                count <= j,
                issued as int == wrap_i32(active_total(s.take(j as int))),
            decreases s.len() - j,
        {
            proof {
                assert(s.take(j + 1).drop_last() =~= s.take(j as int));
                assert(s.take(j + 1).last() == s[j as int]);
            }
            let iss = &self.issuances[j];
            if iss.returned_at.is_none() {
                proof {
                    lemma_wrapping_add(issued, iss.quantity);
                    lemma_wrap_add(active_total(s.take(j as int)), iss.quantity as int);
                }
                issued = issued.wrapping_add(iss.quantity);
                count = count + 1;
            }
            j = j + 1;
        }
        proof {
            assert(s.take(s.len() as int) =~= s);
        }
        proof {
            lemma_wrapping_sub(tool_quantity, issued);
            lemma_wrap_sub(tool_quantity as int, active_total(s));
            lemma_wrap_add(tool_total(tools), -active_total(s));
        }
        let available = tool_quantity.wrapping_sub(issued);
        Stats {
            total_employees: self.employees.len() as i32,
            total_tools: self.tools.len() as i32,
            total_tool_quantity: tool_quantity,
            active_issuances: count as i32,
            issued_quantity: issued,
            available_quantity: available,
        }
    }

    /// The store of a first start: an administrator and a storekeeper with
    /// the given identifiers, and the four stock categories.
    pub fn with_default_accounts(admin_id: String, storekeeper_id: String) -> (r: Database)
        ensures
            is_default_store(r, admin_id@, storekeeper_id@),
    {
        let mut db = Database::default();
        db.users.push(
            User {
                id: admin_id,
                username: "admin".to_owned(),
                password: "admin123".to_owned(),
                name: "Администратор".to_owned(),
                role: Role::ADMIN,
            },
        );
        db.users.push(
            User {
                id: storekeeper_id,
                username: "storekeeper".to_owned(),
                password: "store123".to_owned(),
                name: "Кладовщик".to_owned(),
                role: Role::STOREKEEPER,
            },
        );
        db.categories.push(Category { id: "cat1".to_owned(), name: "Ручной инструмент".to_owned() });
        db.categories.push(Category { id: "cat2".to_owned(), name: "Электроинструмент".to_owned() });
        db.categories.push(
            Category { id: "cat3".to_owned(), name: "Измерительный инструмент".to_owned() },
        );
        db.categories.push(
            Category { id: "cat4".to_owned(), name: "Слесарный инструмент".to_owned() },
        );
        db
    }

    /// The store of a first start, with fresh identifiers for the two
    /// accounts.
    pub fn create_default() -> (r: Database)
        ensures
            is_uuid_v4_text(r.users@[0].id@),
            is_uuid_v4_text(r.users@[1].id@),
            is_default_store(r, r.users@[0].id@, r.users@[1].id@),
    {
        let admin_id = new_uuid_string();
        let storekeeper_id = new_uuid_string();
        Database::with_default_accounts(admin_id, storekeeper_id)
    }
}

/// `db` is the store of a first start: the accounts "admin" (password
/// "admin123", an administrator) and "storekeeper" (password "store123", a
/// storekeeper) with identifiers `admin_id` and `storekeeper_id`, the
/// categories "cat1" to "cat4", and nothing else.
pub open spec fn is_default_store(db: Database, admin_id: Seq<char>, storekeeper_id: Seq<char>) -> bool {
    &&& db.users@.len() == 2
    &&& db.users@[0].id@ == admin_id
    &&& db.users@[0].username@ == "admin"@
    &&& db.users@[0].password@ == "admin123"@
    &&& db.users@[0].name@ == "Администратор"@
    &&& db.users@[0].role == Role::ADMIN
    &&& db.users@[1].id@ == storekeeper_id
    &&& db.users@[1].username@ == "storekeeper"@
    &&& db.users@[1].password@ == "store123"@
    &&& db.users@[1].name@ == "Кладовщик"@
    &&& db.users@[1].role == Role::STOREKEEPER
    &&& db.categories@.len() == 4
    &&& db.categories@[0].id@ == "cat1"@
    &&& db.categories@[0].name@ == "Ручной инструмент"@
    &&& db.categories@[1].id@ == "cat2"@
    &&& db.categories@[1].name@ == "Электроинструмент"@
    &&& db.categories@[2].id@ == "cat3"@
    &&& db.categories@[2].name@ == "Измерительный инструмент"@
    &&& db.categories@[3].id@ == "cat4"@
    &&& db.categories@[3].name@ == "Слесарный инструмент"@
    &&& db.employees@.len() == 0
    &&& db.tools@.len() == 0
    &&& db.issuances@.len() == 0
}

/// The refusal of an issue that asks for more than is available.
pub open spec fn shortage_message(available: int) -> Seq<char> {
    "Недостаточно инструментов. Доступно: "@ + decimal(available)
}

/// The refusal of a write-off that asks for more than is available.
pub open spec fn write_off_message(available: int) -> Seq<char> {
    "Нельзя списать больше чем доступно. Доступно: "@ + decimal(available)
}

impl Issuance {
    /// This issuance, returned at time `t`.
    pub open spec fn returned_at_time(self, t: i64) -> Issuance {
        Issuance { returned_at: Some(t), ..self }
    }
}

impl Tool {
    /// This tool, with total quantity `q`.
    pub open spec fn with_total(self, q: i32) -> Tool {
        Tool { total_quantity: q, ..self }
    }
}

} // verus!

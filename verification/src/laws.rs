//! Properties of the store that span several operations: what an issue, a
//! return or a write-off does to the quantity available, what a lookup gives
//! back after a change, and that the overview counts what the issuance list
//! shows.
use vstd::prelude::*;
use crate::arith::{lemma_wrap_add, lemma_wrap_small, wrap_i32};
use crate::data::{
    active_count, active_quantity, active_total, held_quantity, is_default_store, tool_total,
    Category, Database, Employee, Issuance, Role, Tool, User,
};
use crate::session::App;
use crate::runtime::{is_uuid_v4_text, is_lower_hex_digit, lemma_uuid_is_ascii};
use crate::search::{
    first_match, is_first, lemma_first_match_none, lemma_first_match_push, lemma_first_match_some,
    lemma_first_match_spec, lemma_first_match_update, none_match,
};
use crate::text::{lemma_ascii_byte_prefix, utf8_byte_prefix};

verus! {

/// Appending an issuance adds what it holds to the quantity held.
pub proof fn lemma_active_quantity_push(s: Seq<Issuance>, iss: Issuance, tool_id: Seq<char>)
    ensures
        active_quantity(s.push(iss), tool_id) == active_quantity(s, tool_id) + held_quantity(
            iss,
            tool_id,
        ),
{
    assert(s.push(iss).drop_last() =~= s);
}

/// Replacing one issuance changes the quantity held by the difference of what
/// the two hold.
pub proof fn lemma_active_quantity_update(
    s: Seq<Issuance>,
    i: int,
    iss: Issuance,
    tool_id: Seq<char>,
)
    requires
        0 <= i < s.len(),
    ensures
        active_quantity(s.update(i, iss), tool_id) == active_quantity(s, tool_id) - held_quantity(
            s[i],
            tool_id,
        ) + held_quantity(iss, tool_id),
    decreases s.len(),
{
    let u = s.update(i, iss);
    if i == s.len() - 1 {
        assert(u.drop_last() =~= s.drop_last());
    } else {
        lemma_active_quantity_update(s.drop_last(), i, iss, tool_id);
        assert(u.drop_last() =~= s.drop_last().update(i, iss));
    }
}

/// Issuing: once an issuance is recorded (the change that a successful
/// `Database::issue_tool` makes), what is available of a tool drops by what
/// the issuance holds of it, in `i32` arithmetic.
pub proof fn law_issue_lowers_available(
    before: Database,
    after: Database,
    iss: Issuance,
    tool_id: Seq<char>,
)
    requires
        after.issuances@ == before.issuances@.push(iss),
        after.same_but_issuances(before),
    ensures
        first_match(before.tools@, Tool::has_id(tool_id)) is Some ==> after.available(tool_id)
            == wrap_i32(before.available(tool_id) - held_quantity(iss, tool_id)),
        first_match(before.tools@, Tool::has_id(tool_id)) is None ==> after.available(tool_id)
            == 0,
{
    lemma_active_quantity_push(before.issuances@, iss, tool_id);
    if let Some(i) = first_match(before.tools@, Tool::has_id(tool_id)) {
        let total = before.tools@[i].total_quantity as int;
        let held = active_quantity(before.issuances@, tool_id);
        lemma_wrap_add(total - held, -held_quantity(iss, tool_id));
    }
}

/// Issuing never over-issues: when `Database::issue_tool` accepts an active
/// issuance of a non-negative quantity, what is available of its tool drops by
/// exactly that quantity and stays non-negative.
pub proof fn law_accepted_issue_keeps_available_non_negative(
    before: Database,
    after: Database,
    iss: Issuance,
)
    requires
        iss.is_active(),
        0 <= iss.quantity <= before.available(iss.tool_id@),
        after.issuances@ == before.issuances@.push(iss),
        after.same_but_issuances(before),
    ensures
        after.available(iss.tool_id@) == before.available(iss.tool_id@) - iss.quantity,
        after.available(iss.tool_id@) >= 0,
{
    law_issue_lowers_available(before, after, iss, iss.tool_id@);
    if first_match(before.tools@, Tool::has_id(iss.tool_id@)) is Some {
        lemma_wrap_small(before.available(iss.tool_id@) - iss.quantity);
    }
}

/// Issuing and then returning: recording an issuance under an identifier
/// that no earlier issuance has, and then returning that identifier (the
/// changes that `Database::issue_tool` and `Database::return_tool_at` make),
/// leaves what is available of every tool as it was. The return finds the new
/// issuance.
pub proof fn law_return_undoes_issue(
    before: Database,
    issued: Database,
    returned: Database,
    iss: Issuance,
    t: i64,
    tool_id: Seq<char>,
)
    requires
        none_match(before.issuances@, Issuance::has_id(iss.id@)),
        issued.issuances@ == before.issuances@.push(iss),
        issued.same_but_issuances(before),
        returned.issuances@ == issued.issuances@.update(
            before.issuances@.len() as int,
            iss.returned_at_time(t),
        ),
        returned.same_but_issuances(issued),
    ensures
        first_match(issued.issuances@, Issuance::has_id(iss.id@)) == Some(
            before.issuances@.len() as int,
        ),
        returned.available(tool_id) == before.available(tool_id),
{
    let s = before.issuances@;
    lemma_first_match_push(s, iss, Issuance::has_id(iss.id@));
    lemma_active_quantity_push(s, iss, tool_id);
    lemma_active_quantity_update(issued.issuances@, s.len() as int, iss.returned_at_time(t), tool_id);
    assert(issued.issuances@[s.len() as int] == iss);
    assert(active_quantity(returned.issuances@, tool_id) == active_quantity(s, tool_id));
}

/// Returning: marking an issuance as returned (the change that
/// `Database::return_tool_at` makes) raises what is available of a tool by
/// what the issuance held of it.
pub proof fn law_return_raises_available(
    before: Database,
    after: Database,
    i: int,
    t: i64,
    tool_id: Seq<char>,
)
    requires
        0 <= i < before.issuances@.len(),
        after.issuances@ == before.issuances@.update(i, before.issuances@[i].returned_at_time(t)),
        after.same_but_issuances(before),
    ensures
        first_match(before.tools@, Tool::has_id(tool_id)) is Some ==> after.available(tool_id)
            == wrap_i32(before.available(tool_id) + held_quantity(before.issuances@[i], tool_id)),
{
    lemma_active_quantity_update(
        before.issuances@,
        i,
        before.issuances@[i].returned_at_time(t),
        tool_id,
    );
    if let Some(k) = first_match(before.tools@, Tool::has_id(tool_id)) {
        let total = before.tools@[k].total_quantity as int;
        let held = active_quantity(before.issuances@, tool_id);
        lemma_wrap_add(total - held, held_quantity(before.issuances@[i], tool_id));
    }
}

/// Writing off: lowering the total quantity of the first tool with an
/// identifier by `quantity` (the change that a successful
/// `Database::write_off_tool` makes) lowers what is available of it by
/// `quantity`, in `i32` arithmetic.
pub proof fn law_write_off_lowers_available(
    before: Database,
    after: Database,
    tool_id: Seq<char>,
    quantity: i32,
)
    requires
        first_match(before.tools@, Tool::has_id(tool_id)) is Some,
        ({
            let i = first_match(before.tools@, Tool::has_id(tool_id))->0;
            after.tools@ == before.tools@.update(
                i,
                before.tools@[i].with_total(
                    wrap_i32(before.tools@[i].total_quantity - quantity) as i32,
                ),
            )
        }),
        after.same_but_tools(before),
    ensures
        after.available(tool_id) == wrap_i32(before.available(tool_id) - quantity),
{
    let p = Tool::has_id(tool_id);
    lemma_first_match_spec(before.tools@, p);
    let i = first_match(before.tools@, p)->0;
    let written_off = before.tools@[i].with_total(
        wrap_i32(before.tools@[i].total_quantity - quantity) as i32,
    );
    lemma_first_match_update(before.tools@, written_off, p);
    let total = before.tools@[i].total_quantity as int;
    let held = active_quantity(before.issuances@, tool_id);
    lemma_wrap_add(total - quantity, -held);
    lemma_wrap_add(total - held, -(quantity as int));
}

/// The overview counts exactly the issuances that the list of active
/// issuances shows: `active_count` is the length of the filtered list that
/// `Database::get_active_issuances` returns.
pub proof fn law_active_count_is_list_length(s: Seq<Issuance>)
    ensures
        active_count(s) == s.filter(Issuance::active()).len(),
    decreases s.len(),
{
    reveal(Seq::filter);
    if s.len() > 0 {
        law_active_count_is_list_length(s.drop_last());
    }
}

/// Deleting: after `Database::delete_employee(id)` no employee has
/// identifier `id`, so looking it up finds nothing.
pub proof fn law_deleted_employee_is_gone(s: Seq<Employee>, id: Seq<char>)
    ensures
        first_match(s.filter(Employee::lacks_id(id)), Employee::has_id(id)) is None,
{
    let kept = s.filter(Employee::lacks_id(id));
    assert forall|j: int| 0 <= j < kept.len() implies !Employee::has_id(id)(#[trigger] kept[j]) by {
        s.lemma_filter_pred(Employee::lacks_id(id), j);
    }
    lemma_first_match_none(kept, Employee::has_id(id));
}

/// Deleting: after `Database::delete_tool(id)` no tool has identifier `id`.
pub proof fn law_deleted_tool_is_gone(s: Seq<Tool>, id: Seq<char>)
    ensures
        first_match(s.filter(Tool::lacks_id(id)), Tool::has_id(id)) is None,
{
    let kept = s.filter(Tool::lacks_id(id));
    assert forall|j: int| 0 <= j < kept.len() implies !Tool::has_id(id)(#[trigger] kept[j]) by {
        s.lemma_filter_pred(Tool::lacks_id(id), j);
    }
    lemma_first_match_none(kept, Tool::has_id(id));
}

/// Deleting: after `Database::delete_category(id)` no category has
/// identifier `id`, so its name shows as "no category".
pub proof fn law_deleted_category_is_gone(s: Seq<Category>, id: Seq<char>)
    ensures
        first_match(s.filter(Category::lacks_id(id)), Category::has_id(id)) is None,
{
    let kept = s.filter(Category::lacks_id(id));
    assert forall|j: int| 0 <= j < kept.len() implies !Category::has_id(id)(#[trigger] kept[j]) by {
        s.lemma_filter_pred(Category::lacks_id(id), j);
    }
    lemma_first_match_none(kept, Category::has_id(id));
}

/// Adding: an employee appended by `Database::add_employee` whose QR code no
/// earlier employee carries is what scanning that code finds.
pub proof fn law_added_employee_is_found_by_qr(s: Seq<Employee>, e: Employee)
    requires
        none_match(s, Employee::has_qr(e.qr_code@)),
    ensures
        first_match(s.push(e), Employee::has_qr(e.qr_code@)) == Some(s.len() as int),
        s.push(e)[s.len() as int] == e,
{
    lemma_first_match_push(s, e, Employee::has_qr(e.qr_code@));
}

/// Adding: a tool appended by `Database::add_tool` whose QR code no earlier
/// tool carries is what scanning that code finds.
pub proof fn law_added_tool_is_found_by_qr(s: Seq<Tool>, t: Tool)
    requires
        none_match(s, Tool::has_qr(t.qr_code@)),
    ensures
        first_match(s.push(t), Tool::has_qr(t.qr_code@)) == Some(s.len() as int),
        s.push(t)[s.len() as int] == t,
{
    lemma_first_match_push(s, t, Tool::has_qr(t.qr_code@));
}

/// Adding: a category appended by `Database::add_category` under an
/// identifier no earlier category has is what its name is looked up from.
pub proof fn law_added_category_is_named(s: Seq<Category>, c: Category)
    requires
        none_match(s, Category::has_id(c.id@)),
    ensures
        first_match(s.push(c), Category::has_id(c.id@)) == Some(s.len() as int),
        s.push(c)[s.len() as int].name == c.name,
{
    lemma_first_match_push(s, c, Category::has_id(c.id@));
}

/// Updating: after `Database::update_employee(e)` replaced the first
/// employee with `e`'s identifier, looking that identifier up gives `e`.
pub proof fn law_updated_employee_is_found(s: Seq<Employee>, e: Employee)
    requires
        first_match(s, Employee::has_id(e.id@)) is Some,
    ensures
        ({
            let i = first_match(s, Employee::has_id(e.id@))->0;
            &&& first_match(s.update(i, e), Employee::has_id(e.id@)) == Some(i)
            &&& s.update(i, e)[i] == e
        }),
{
    lemma_first_match_update(s, e, Employee::has_id(e.id@));
}

/// Updating: after `Database::update_tool(t)` replaced the first tool with
/// `t`'s identifier, looking that identifier up gives `t`.
pub proof fn law_updated_tool_is_found(s: Seq<Tool>, t: Tool)
    requires
        first_match(s, Tool::has_id(t.id@)) is Some,
    ensures
        ({
            let i = first_match(s, Tool::has_id(t.id@))->0;
            &&& first_match(s.update(i, t), Tool::has_id(t.id@)) == Some(i)
            &&& s.update(i, t)[i] == t
        }),
{
    lemma_first_match_update(s, t, Tool::has_id(t.id@));
}

/// Updating: after `Database::update_category(c)` replaced the first
/// category with `c`'s identifier, the name looked up for that identifier is
/// `c`'s.
pub proof fn law_updated_category_is_named(s: Seq<Category>, c: Category)
    requires
        first_match(s, Category::has_id(c.id@)) is Some,
    ensures
        ({
            let i = first_match(s, Category::has_id(c.id@))->0;
            &&& first_match(s.update(i, c), Category::has_id(c.id@)) == Some(i)
            &&& s.update(i, c)[i].name == c.name
        }),
{
    lemma_first_match_update(s, c, Category::has_id(c.id@));
}

/// The accounts of a first start: "admin" with password "admin123" logs in
/// as the administrator, "storekeeper" with password "store123" as the
/// storekeeper.
pub proof fn law_default_accounts_log_in(db: Database, admin_id: Seq<char>, storekeeper_id: Seq<char>)
    requires
        is_default_store(db, admin_id, storekeeper_id),
    ensures
        db.login_match("admin"@, "admin123"@) == Some(0int),
        db.users@[0].role == Role::ADMIN,
        db.login_match("storekeeper"@, "store123"@) == Some(1int),
        db.users@[1].role == Role::STOREKEEPER,
{
    reveal_strlit("admin");
    reveal_strlit("storekeeper");
    let p = User::has_login("admin"@, "admin123"@);
    assert(is_first(db.users@, 0, p));
    lemma_first_match_some(db.users@, 0, p);
    let q = User::has_login("storekeeper"@, "store123"@);
    assert("admin"@.len() != "storekeeper"@.len());
    assert(!q(db.users@[0]));
    assert(is_first(db.users@, 1, q));
    lemma_first_match_some(db.users@, 1, q);
}

/// QR codes of new records: for a fresh identifier (a hyphenated UUID) the
/// code that the forms build is the prefix followed by the first eight
/// characters of the identifier, all lowercase hexadecimal digits:
/// `EMP_xxxxxxxx` for employees and `TOOL_xxxxxxxx` for tools.
pub proof fn law_new_qr_codes(id: Seq<char>)
    requires
        is_uuid_v4_text(id),
    ensures
        utf8_byte_prefix(id, 8) == id.take(8),
        id.take(8).len() == 8,
        forall|k: int| 0 <= k < 8 ==> is_lower_hex_digit(#[trigger] id.take(8)[k]),
        ("EMP_"@ + utf8_byte_prefix(id, 8)).len() == 12,
        ("TOOL_"@ + utf8_byte_prefix(id, 8)).len() == 13,
{
    reveal_strlit("EMP_");
    reveal_strlit("TOOL_");
    lemma_uuid_is_ascii(id);
    lemma_ascii_byte_prefix(id, 8);
    assert forall|k: int| 0 <= k < 8 implies is_lower_hex_digit(#[trigger] id.take(8)[k]) by {
        assert(id.take(8)[k] == id[k]);
        assert(k != 8 && k != 13 && k != 18 && k != 23);
    }
}

/// The figures of the overview count issuances by whether they are out: an
/// empty list holds nothing, an issuance whose tools are out adds its quantity
/// (and 1 to the count), and a returned issuance adds nothing. The total
/// quantity of the tools adds up every tool.
pub proof fn law_overview_sums_count_only_active(s: Seq<Issuance>, x: Issuance, tools: Seq<Tool>, t: Tool)
    ensures
        active_total(Seq::<Issuance>::empty()) == 0,
        active_count(Seq::<Issuance>::empty()) == 0,
        active_total(s.push(x)) == active_total(s) + (if x.returned_at is None {
            x.quantity as int
        } else {
            0
        }),
        active_count(s.push(x)) == active_count(s) + (if x.returned_at is None {
            1int
        } else {
            0
        }),
        tool_total(Seq::<Tool>::empty()) == 0,
        tool_total(tools.push(t)) == tool_total(tools) + t.total_quantity,
{
    assert(s.push(x).drop_last() =~= s);
    assert(tools.push(t).drop_last() =~= tools);
}

/// What a tool has out counts only its own issuances whose tools are out: an
/// empty list holds nothing, an issuance of that tool not yet returned adds
/// its quantity, and any other issuance (returned, or of another tool) adds
/// nothing.
pub proof fn law_held_quantity_counts_only_active(s: Seq<Issuance>, x: Issuance, tool_id: Seq<char>)
    ensures
        active_quantity(Seq::<Issuance>::empty(), tool_id) == 0,
        active_quantity(s.push(x), tool_id) == active_quantity(s, tool_id) + (if x.tool_id@
            == tool_id && x.returned_at is None {
            x.quantity as int
        } else {
            0
        }),
{
    assert(s.push(x).drop_last() =~= s);
}

/// The list of an employee's issuances (`Database::get_employee_active_issuances`)
/// holds exactly that employee's issuances whose tools are still out, in
/// order: every listed issuance is unreturned and made to the employee, and
/// every such issuance of the store is listed.
pub proof fn law_employee_list_holds_only_unreturned(s: Seq<Issuance>, employee_id: Seq<char>)
    ensures
        forall|k: int|
            0 <= k < s.filter(Issuance::active_for(employee_id)).len() ==> (#[trigger] s.filter(
                Issuance::active_for(employee_id),
            )[k]).returned_at is None && s.filter(Issuance::active_for(employee_id))[k].employee_id@
                == employee_id,
        forall|j: int|
            0 <= j < s.len() && (#[trigger] s[j]).returned_at is None && s[j].employee_id@
                == employee_id ==> s.filter(Issuance::active_for(employee_id)).contains(s[j]),
{
    let p = Issuance::active_for(employee_id);
    assert forall|k: int| 0 <= k < s.filter(p).len() implies (#[trigger] s.filter(p)[k]).returned_at
        is None && s.filter(p)[k].employee_id@ == employee_id by {
        s.lemma_filter_pred(p, k);
    }
    assert forall|j: int|
        0 <= j < s.len() && (#[trigger] s[j]).returned_at is None && s[j].employee_id@
            == employee_id implies s.filter(p).contains(s[j]) by {
        s.lemma_filter_contains(p, j);
    }
}

/// The list of active issuances (`Database::get_active_issuances`) holds
/// exactly the unreturned issuances of the store.
pub proof fn law_active_list_holds_only_unreturned(s: Seq<Issuance>)
    ensures
        forall|k: int|
            0 <= k < s.filter(Issuance::active()).len() ==> (#[trigger] s.filter(
                Issuance::active(),
            )[k]).returned_at is None,
        forall|j: int|
            0 <= j < s.len() && (#[trigger] s[j]).returned_at is None ==> s.filter(
                Issuance::active(),
            ).contains(s[j]),
{
    let p = Issuance::active();
    assert forall|k: int| 0 <= k < s.filter(p).len() implies (#[trigger] s.filter(p)[k]).returned_at
        is None by {
        s.lemma_filter_pred(p, k);
    }
    assert forall|j: int| 0 <= j < s.len() && (#[trigger] s[j]).returned_at is None implies s.filter(
        p,
    ).contains(s[j]) by {
        s.lemma_filter_contains(p, j);
    }
}

/// The terminal offers the issue button (`App::can_issue`) exactly when an
/// employee is scanned and the scanned tool's total quantity less what its
/// unreturned issuances hold (wrapped to `i32`) is positive; a single
/// available unit is enough.
pub proof fn law_issue_offered_when_something_available(app: App, tool: Tool)
    requires
        app.terminal.scanned_employee is Some,
        app.terminal.scanned_tool == Some(tool),
    ensures
        app.available_of(tool) == wrap_i32(
            tool.total_quantity - active_quantity(app.db.issuances@, tool.id@),
        ),
        wrap_i32(tool.total_quantity - active_quantity(app.db.issuances@, tool.id@)) >= 1
            ==> app.available_of(tool) > 0,
{
}

/// Saving the tool form while editing a tool that the store holds
/// (`App::save_tool_form`, `App::submit_tool_form`) replaces the first tool
/// with that identifier by the form's record and reports the store changed;
/// editing a tool the store does not hold changes nothing.
pub proof fn law_edited_tool_is_replaced(old: App, new: App, id: Seq<char>, saved: bool)
    requires
        old.tool_form.editing_id is Some,
        App::tool_form_saved(old, new, id, saved),
    ensures
        match first_match(old.db.tools@, Tool::has_id(id)) {
            Some(i) => {
                &&& saved
                &&& new.db.tools@ == old.db.tools@.update(i, new.db.tools@[i])
                &&& new.db.tools@[i].id@ == id
                &&& new.db.tools@[i].name == old.tool_form.name
                &&& new.db.tools@[i].inventory_number == old.tool_form.inventory
                &&& new.db.tools@[i].category_id == old.tool_form.category
                &&& new.db.tools@[i].total_quantity == old.tool_form.quantity
            },
            None => !saved && new.db.tools@ == old.db.tools@,
        },
{
    if let Some(i) = first_match(old.db.tools@, Tool::has_id(id)) {
        assert(new.db.tools@ =~= old.db.tools@.update(i, new.db.tools@[i]));
    }
}

/// Saving the employee form while editing an employee that the store holds
/// (`App::save_employee_form`, `App::submit_employee_form`) replaces the first
/// employee with that identifier by the form's record and reports the store
/// changed; editing an employee the store does not hold changes nothing.
pub proof fn law_edited_employee_is_replaced(old: App, new: App, id: Seq<char>, saved: bool)
    requires
        old.employee_form.editing_id is Some,
        App::employee_form_saved(old, new, id, saved),
    ensures
        match first_match(old.db.employees@, Employee::has_id(id)) {
            Some(i) => {
                &&& saved
                &&& new.db.employees@ == old.db.employees@.update(i, new.db.employees@[i])
                &&& new.db.employees@[i].id@ == id
                &&& new.db.employees@[i].name == old.employee_form.name
                &&& new.db.employees@[i].position == old.employee_form.position
                &&& new.db.employees@[i].department == old.employee_form.department
            },
            None => !saved && new.db.employees@ == old.db.employees@,
        },
{
    if let Some(i) = first_match(old.db.employees@, Employee::has_id(id)) {
        assert(new.db.employees@ =~= old.db.employees@.update(i, new.db.employees@[i]));
    }
}

} // verus!

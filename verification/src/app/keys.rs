//! What the keys do: dialogs, selection, the panel's own keys, and the requests
//! that the other modules start.
use super::oneshot::{
    check_started, downgrade_picked, downgrade_started, refused_with, reinstall_asked,
    reinstall_sweep_started, search_started, update_started, update_sweep_started, verify_started,
};
use super::poll::told;
use super::{clamped, shown, AfterReload, App, CancelFor, Flow, PairFor};
use crate::batch::{migrate_sections, BatchRunner, MigrateBatch, MigrateSection};
use crate::job::{BuildIntent, Job, PendingBuild};
use crate::state::{
    Confirm, Filter, Input, InputPurpose, MessageKind, OnConfirm, PendingInPlace, PendingMigrate,
};
use crate::text::{
    cat3, cat5, chars_of, is_control, join, joined, control, law_joined_words_read_back,
    law_words_hold_no_white, same, sanitized, string_of_range, texts, words, words_of,
};
use crate::validate::{refuses_specs, valid_specs, InstallSpec, Invalid};
use std::collections::VecDeque;
use vstd::prelude::*;

verus! {

/// A key, as far as the interface tells keys apart.
#[derive(Clone, Copy, PartialEq, Eq, Debug, Structural)]
pub enum KeyCode {
    Char(char),
    Up,
    Down,
    PageUp,
    PageDown,
    Home,
    End,
    Esc,
    Enter,
    Tab,
    BackTab,
    Backspace,
    Other,
}

/// A key press.
#[derive(Clone, Copy, PartialEq, Eq, Debug, Structural)]
pub struct Key {
    pub code: KeyCode,
    pub ctrl: bool,
}

/// The tokens of an install line that name crates.
pub open spec fn crate_tokens(tokens: Seq<Seq<char>>) -> Seq<Seq<char>>
    decreases tokens.len(),
{
    if tokens.len() == 0 {
        Seq::empty()
    } else if tokens.last() == "--locked"@ {
        crate_tokens(tokens.drop_last())
    } else {
        crate_tokens(tokens.drop_last()).push(tokens.last())
    }
}

/// Whether `r` is what an install line comes to: crate specs, `--locked`
/// anywhere, validated as an install will validate them, and passed on as typed.
pub open spec fn install_line(buffer: Seq<char>, r: Result<(Vec<String>, bool), String>) -> bool {
    let tokens = words_of(buffer);
    let crates = crate_tokens(tokens);
    if crates.len() == 0 {
        r matches Err(e) && e@ == "no crate name given"@
    } else if valid_specs(crates) {
        r matches Ok((specs, locked)) && texts(specs@) == crates && locked == tokens.contains(
            "--locked"@,
        )
    } else {
        r matches Err(e) && exists|why: Invalid|
            #[trigger] refuses_specs(crates, why) && e@ == why.text()
    }
}

/// The install line: crate specs, `--locked` anywhere, the CLI's shape.
/// Validated here so a typo fails in the footer, before any build starts.
pub fn parse_install_input(buffer: &str) -> (r: Result<(Vec<String>, bool), String>)
    ensures
        install_line(buffer@, r),
{
    let tokens = words(buffer);
    let ghost all = words_of(buffer@);
    let mut crates: Vec<String> = Vec::new();
    let mut locked = false;
    let mut i: usize = 0;
    assert(texts(crates@) =~= crate_tokens(all.take(0)));
    while i < tokens.len()
        invariant
            i <= tokens.len(),
            all == texts(tokens@),
            texts(crates@) == crate_tokens(all.take(i as int)),
            locked <==> exists|j: int| 0 <= j < i && all[j] == "--locked"@,
        decreases tokens.len() - i,
    {
        let ghost before = texts(crates@);
        assert(all.take(i + 1).drop_last() =~= all.take(i as int));
        assert(all.take(i + 1).last() == tokens@[i as int]@);
        assert(all[i as int] == tokens@[i as int]@);
        if same(tokens[i].as_str(), "--locked") {
            locked = true;
        } else {
            crates.push(tokens[i].clone());
            assert(texts(crates@) =~= before.push(tokens@[i as int]@));
        }
        i = i + 1;
    }
    assert(all.take(i as int) =~= all);
    assert(locked <==> all.contains("--locked"@));
    if crates.len() == 0 {
        return Err("no crate name given".to_owned());
    }
    match InstallSpec::parse_all(&crates) {
        Ok(_) => Ok((crates, locked)),
        Err(e) => Err(e.chain()),
    }
}

/// What a search line reads as: its words with a space between each two, or a
/// refusal where it has none.
pub open spec fn search_line(buffer: Seq<char>, r: Result<String, String>) -> bool {
    let query = joined(words_of(buffer), " "@);
    if query.len() == 0 {
        r matches Err(e) && e@ == "no search terms given"@
    } else {
        r matches Ok(read) && read@ == query
    }
}

/// What a search line was normalized to is its own normal form.
pub proof fn law_a_search_line_is_normalized_once(
    buffer: Seq<char>,
    query: String,
    again: Result<String, String>,
)
    requires
        search_line(buffer, Ok(query)),
        search_line(query@, again),
    ensures
        again matches Ok(same) && same@ == query@,
{
    law_words_hold_no_white(buffer);
    law_joined_words_read_back(words_of(buffer));
}

/// The search line: free-text terms, whitespace-normalized. Not a crate name, so
/// not validated as one.
pub fn parse_search_input(buffer: &str) -> (r: Result<String, String>)
    ensures
        search_line(buffer@, r),
{
    let query = join(&words(buffer), " ");
    if query.as_str().is_empty() {
        return Err("no search terms given".to_owned());
    }
    Ok(query)
}

/// What a scroll key does to the panel's offset: down-moves stop at the bound the
/// renderer wrote back, so the offset never runs past the tail. `None` for a key
/// that is not the panel's.
pub open spec fn scrolled(offset: u16, max: u16, code: KeyCode) -> Option<u16> {
    match code {
        KeyCode::Up => Some(back(offset, 1)),
        KeyCode::Down => Some(forth(offset, 1, max)),
        KeyCode::PageUp => Some(back(offset, 5)),
        KeyCode::PageDown => Some(forth(offset, 5, max)),
        KeyCode::Home => Some(0),
        KeyCode::End => Some(max),
        _ => None,
    }
}

/// So many lines up, at most to the first.
pub open spec fn back(offset: u16, by: int) -> u16 {
    if offset >= by {
        (offset - by) as u16
    } else {
        0
    }
}

/// So many lines down, at most to the bound.
pub open spec fn forth(offset: u16, by: int, max: u16) -> u16 {
    if offset + by <= max {
        (offset + by) as u16
    } else {
        max
    }
}

/// Whether a key scrolls: a report is up, nothing is being typed, and no
/// question is open but one that owns the panel.
pub open spec fn scrolls(app: App, code: KeyCode) -> bool {
    &&& app.build_report is Some
    &&& app.input is None
    &&& app.confirm matches Some(c) ==> c.action.pins_a_plan()
    &&& scrolled(app.report_scroll, app.report_scroll_max, code) is Some
}

/// What a request to remove a crate changes, once confirmed: refused while
/// anything of the running family is in flight.
pub open spec fn removal_confirmed(before: App, name: String, after: App, flow: Flow) -> bool {
    if before.occupied() {
        refused_with(
            before,
            "an operation is running or queued; finish or cancel it first"@,
            after,
            flow,
        )
    } else {
        after == before && flow == Flow::ProbePrivilege(PendingInPlace::Remove(name))
    }
}

/// What a `y` triggers.
pub open spec fn confirmed(before: App, action: OnConfirm, after: App, flow: Flow) -> bool {
    match action {
        OnConfirm::ReinstallAll { planned } => flow is Done && after == (App {
            pending_reinstall_sweep: Some(planned),
            ..before
        }),
        OnConfirm::UpdateAll { planned } => flow is Done && after == (App {
            pending_update_sweep: Some(planned),
            ..before
        }),
        OnConfirm::Update { name, expected } => {
            &&& flow is Done
            &&& after == (App {
                message: after.message,
                pending_build: Some(
                    PendingBuild {
                        spec: name,
                        locked: false,
                        intent: BuildIntent::Update { expected },
                    },
                ),
                ..before
            })
            &&& after.says("updating "@ + name@ + "…"@, MessageKind::Info)
        },
        OnConfirm::Remove { name } => removal_confirmed(before, name, after, flow),
        OnConfirm::Migrate(plan) => flow is Done && after == (App {
            pending_migrate: Some(plan),
            ..before
        }),
        OnConfirm::MigrateAll { dest, plan } => {
            &&& flow is Done
            &&& if plan@.len() == 0 {
                after == before
            } else {
                &&& after == (App {
                    migrate_batch: after.migrate_batch,
                    pending_migrate: Some(plan@[0]),
                    ..before
                })
                &&& after.migrate_batch matches Some(b) && batch_begun(b, dest, plan@)
            }
        },
    }
}

/// Whether a migration batch stands at its start: the first member is taken out,
/// the others are queued in order, and nothing is filed.
pub open spec fn batch_begun(b: MigrateBatch, dest: String, plan: Seq<PendingMigrate>) -> bool {
    &&& b.dest == dest
    &&& !b.stopping
    &&& b.runner.total == plan.len()
    &&& b.runner.succeeded == 0
    &&& b.runner.reload_error is None
    &&& b.runner.queue@ == plan.drop_first()
    &&& super::migrate_sections_fit(b.runner)
    &&& crate::batch::none_filed(b.runner.sections@)
}

/// What a key answers to an open question. A plan shown for this question goes
/// with the question, whichever way it is answered; a report that was already
/// there belongs to whatever put it there and stays.
pub open spec fn answered_question(before: App, code: KeyCode, after: App, flow: Flow) -> bool {
    match before.confirm {
        None => after == before && flow is Done,
        Some(c) => {
            let closed = App {
                confirm: None,
                build_report: if c.action.pins_a_plan() {
                    None
                } else {
                    before.build_report
                },
                ..before
            };
            if code == KeyCode::Char('y') || code == KeyCode::Char('Y') {
                confirmed(closed, c.action, after, flow)
            } else {
                flow is Done && told(closed, "cancelled"@, MessageKind::Info, after)
            }
        },
    }
}

/// What a submitted line does.
pub open spec fn submitted(
    before: App,
    purpose: InputPurpose,
    buffer: Seq<char>,
    after: App,
    flow: Flow,
) -> bool {
    match purpose {
        InputPurpose::Install => exists|r: Result<(Vec<String>, bool), String>|
            {
                &&& #[trigger] install_line(buffer, r)
                &&& flow is Done
                &&& match r {
                    Err(e) => told(before, e@, MessageKind::Error, after),
                    Ok((crates, locked)) => if crates@.len() > 1 {
                        after == (App { pending_install_batch: Some((crates, locked)), ..before })
                    } else {
                        &&& after == (App {
                            message: after.message,
                            pending_build: Some(
                                PendingBuild {
                                    spec: crates@[0],
                                    locked,
                                    intent: BuildIntent::Install,
                                },
                            ),
                            ..before
                        })
                        &&& after.says("building "@ + crates@[0]@ + "…"@, MessageKind::Info)
                    },
                }
            },
        InputPurpose::Search => {
            let query = joined(words_of(buffer), " "@);
            if query.len() == 0 {
                flow is Done && told(before, "no search terms given"@, MessageKind::Error, after)
            } else {
                search_started(before, query, after, flow)
            }
        },
    }
}

/// What a key does to an open input line.
pub open spec fn typed(before: App, code: KeyCode, after: App, flow: Flow) -> bool {
    match before.input {
        None => flow is Done && after == before,
        Some(input) => match code {
            KeyCode::Esc => flow is Done && after == (App { input: None, ..before }),
            KeyCode::Enter => submitted(
                App { input: None, ..before },
                input.purpose,
                input.buffer@,
                after,
                flow,
            ),
            KeyCode::Backspace => line_is(
                before,
                input,
                if input.buffer@.len() == 0 {
                    input.buffer@
                } else {
                    input.buffer@.drop_last()
                },
                after,
                flow,
            ),
            KeyCode::Char(c) => if control(c) {
                flow is Done && after == before
            } else {
                line_is(before, input, input.buffer@.push(c), after, flow)
            },
            _ => flow is Done && after == before,
        },
    }
}

/// The input line holds this text now.
pub open spec fn line_is(
    before: App,
    input: Input,
    buffer: Seq<char>,
    after: App,
    flow: Flow,
) -> bool {
    &&& flow is Done
    &&& after == (App { input: after.input, ..before })
    &&& after.input matches Some(now) && now.purpose == input.purpose && now.buffer@ == buffer
}

/// What opening an input line changes.
pub open spec fn input_opened(before: App, purpose: InputPurpose, after: App, flow: Flow) -> bool {
    if before.job is Some {
        refused_with(before, "busy; wait for the current job to finish"@, after, flow)
    } else {
        &&& flow is Done
        &&& after == (App { input: after.input, ..before })
        &&& after.input matches Some(input) && input.purpose == purpose && input.buffer@.len() == 0
    }
}

/// A one-shot with its cancel asked.
pub open spec fn cancel_flagged(job: Job) -> Job {
    match job {
        Job::Check { .. } => Job::Check { cancel: true },
        Job::Verify { started, .. } => Job::Verify { started, cancel: true },
        Job::Search { query, .. } => Job::Search { query, cancel: true },
        Job::UpdateSweepCheck { .. } => Job::UpdateSweepCheck { cancel: true },
        Job::ReinstallPlan { .. } => Job::ReinstallPlan { cancel: true },
        Job::UpdatePlan { name, .. } => Job::UpdatePlan { name, cancel: true },
        Job::Downgrade { name, current, .. } => Job::Downgrade { name, current, cancel: true },
        Job::Build(build) => Job::Build(build),
    }
}

/// What is said when a one-shot's cancel is asked.
pub open spec fn cancel_text(job: Job) -> Seq<char> {
    match job {
        Job::Check { .. } => "cancelling the update check…"@,
        Job::Verify { .. } => "verify: cancel requested — the result will be discarded"@,
        Job::Search { query, .. } => "search `"@ + query@ + "`: cancel requested…"@,
        Job::UpdateSweepCheck { .. } => "update check: cancel requested…"@,
        Job::ReinstallPlan { .. } => "reading the prefix: cancel requested…"@,
        Job::UpdatePlan { name, .. } => "version lookup for `"@ + name@ + "`: cancel requested…"@,
        Job::Downgrade { name, .. } => "version lookup for `"@ + name@ + "`: cancel requested…"@,
        Job::Build(_) => Seq::empty(),
    }
}

/// What the cancel key does. Builds are asked, and a migration batch remembers
/// at once that it is to stop; one-shots set their flag and nothing more; with no
/// job, silence.
pub open spec fn cancel_key(before: App, after: App, flow: Flow) -> bool {
    match before.job {
        None => after == before && flow is Done,
        Some(Job::Build(_)) => {
            &&& flow == Flow::RequestCancel(CancelFor::Key)
            &&& after == (App {
                migrate_batch: match before.migrate_batch {
                    Some(b) => Some(MigrateBatch { stopping: true, ..b }),
                    None => None,
                },
                ..before
            })
        },
        Some(job) => {
            &&& flow is Done
            &&& after == (App {
                message: after.message,
                job: Some(cancel_flagged(job)),
                ..before
            })
            &&& after.says(cancel_text(job), MessageKind::Info)
        },
    }
}

/// What asking for a removal of the selected crate changes.
pub open spec fn removal_asked(before: App, after: App, flow: Flow) -> bool {
    &&& flow is Done
    &&& match before.chosen() {
        None => after == before,
        Some(row) => {
            &&& after == (App { confirm: after.confirm, ..before })
            &&& after.confirm matches Some(c) && c.prompt@ == sanitized(
                "remove "@ + row.name@ + " ("@ + joined(texts(row.bins@), ", "@) + ")? [y/N]"@,
            ) && c.action == (OnConfirm::Remove { name: row.name })
        },
    }
}

/// What asking for a pin or an unpin of the selected crate changes: there is no
/// question, since a toggle that is wrong is undone by pressing it again.
pub open spec fn pin_asked(before: App, after: App, flow: Flow) -> bool {
    match before.chosen() {
        None => after == before && flow is Done,
        Some(row) => if before.occupied() {
            refused_with(
                before,
                "an operation is running or queued; finish or cancel it first"@,
                after,
                flow,
            )
        } else {
            after == before && flow == Flow::ProbePrivilege(
                PendingInPlace::SetPinned { name: row.name, pinned: !row.pinned },
            )
        },
    }
}

/// What picking a hit changes: the install line opens with its name, editable.
pub open spec fn hit_picked(before: App, index: int, after: App, flow: Flow) -> bool {
    &&& flow is Done
    &&& if index < before.search_result->0.hits@.len() {
        after == (App {
            input: Some(
                Input {
                    purpose: InputPurpose::Install,
                    buffer: before.search_result->0.hits@[index].name,
                },
            ),
            ..before
        })
    } else {
        after == before
    }
}

/// What leaving the list changes: with a build running the exit is held back.
pub open spec fn leaving(before: App, after: App, flow: Flow) -> bool {
    if before.job matches Some(Job::Build(_)) {
        refused_with(
            before,
            "a build is running; c cancels it, Ctrl-C cancels and quits"@,
            after,
            flow,
        )
    } else {
        flow is Done && after == (App { should_quit: true, ..before })
    }
}

/// The keys that the degraded state lets through: those that help.
pub open spec fn degraded_passes(app: App, code: KeyCode) -> bool {
    ||| code == KeyCode::Char('q')
    ||| code == KeyCode::Char('v')
    ||| code == KeyCode::Char('?')
    ||| code == KeyCode::Char('B')
    ||| code == KeyCode::Esc
    ||| code == KeyCode::Char('c') && app.job is Some && !(app.job matches Some(Job::Build(_)))
}

/// What a key in the list does.
pub open spec fn listed_key(before: App, code: KeyCode, now: u64, after: App, flow: Flow) -> bool {
    if before.manifest_error is Some && !degraded_passes(before, code) {
        if code == KeyCode::Char('r') {
            after == before && flow == Flow::Reload(AfterReload::Retry)
        } else {
            refused_with(
                before,
                "the manifest cannot be loaded — repair it by hand (v lists the findings), then r retries the load"@,
                after,
                flow,
            )
        }
    } else {
        match code {
            KeyCode::Char(c) => listed_char(before, c, now, after, flow),
            KeyCode::Esc => if before.downgrade_choice is Some {
                flow is Done && after == (App { downgrade_choice: None, ..before })
            } else if before.search_result is Some {
                flow is Done && after == (App { search_result: None, ..before })
            } else {
                leaving(before, after, flow)
            },
            KeyCode::Down => flow is Done && moved_to(before, stepped_down(before), after),
            KeyCode::Up => flow is Done && moved_to(before, stepped_up(before), after),
            KeyCode::Home => flow is Done && moved_to(before, 0, after),
            KeyCode::End => flow is Done && moved_to(before, last_row(before), after),
            KeyCode::Tab => flow is Done && filtered(before, before.filter.following(), after),
            KeyCode::BackTab => flow is Done && filtered(before, before.filter.preceding(), after),
            KeyCode::Enter => update_started(before, after, flow),
            _ => after == before && flow is Done,
        }
    }
}

/// What a character key in the list does.
pub open spec fn listed_char(before: App, c: char, now: u64, after: App, flow: Flow) -> bool {
    if c == 'q' {
        leaving(before, after, flow)
    } else if c == 'c' {
        cancel_key(before, after, flow)
    } else if c == '?' {
        flow is Done && after == (App { show_help: true, ..before })
    } else if c == 'j' {
        flow is Done && moved_to(before, stepped_down(before), after)
    } else if c == 'k' {
        flow is Done && moved_to(before, stepped_up(before), after)
    } else if c == 'g' {
        flow is Done && moved_to(before, 0, after)
    } else if c == 'G' {
        flow is Done && moved_to(before, last_row(before), after)
    } else if c == 'r' {
        check_started(before, after, flow)
    } else if c == 'v' {
        verify_started(before, now, after, flow)
    } else if c == 's' {
        input_opened(before, InputPurpose::Search, after, flow)
    } else if '1' <= c <= '9' {
        let index = c as int - '1' as int;
        if before.downgrade_choice is Some {
            downgrade_picked(before, index, after, flow)
        } else if before.search_result is Some {
            hit_picked(before, index, after, flow)
        } else {
            after == before && flow is Done
        }
    } else if c == 'i' {
        input_opened(before, InputPurpose::Install, after, flow)
    } else if c == 'u' {
        update_started(before, after, flow)
    } else if c == 'U' {
        update_sweep_started(before, after, flow)
    } else if c == 'p' {
        pin_asked(before, after, flow)
    } else if c == 't' {
        reinstall_asked(before, after, flow)
    } else if c == 'T' {
        reinstall_sweep_started(before, after, flow)
    } else if c == 'D' {
        downgrade_started(before, after, flow)
    } else if c == 'x' {
        removal_asked(before, after, flow)
    } else if c == 'B' {
        after == before && flow == Flow::FindPair(PairFor::Jump)
    } else if c == 'm' {
        after == before && if before.chosen() is Some {
            flow == Flow::FindPair(PairFor::Migrate)
        } else {
            flow is Done
        }
    } else if c == 'M' {
        after == before && flow == Flow::FindPair(PairFor::MigrateAll)
    } else {
        after == before && flow is Done
    }
}

/// The selection moved.
pub open spec fn moved_to(before: App, selected: int, after: App) -> bool {
    after == (App { selected: after.selected, ..before }) && after.selected == selected
}

/// One row down, if there is one.
pub open spec fn stepped_down(app: App) -> int {
    if app.selected + 1 < app.view_rows().len() {
        app.selected + 1
    } else {
        app.selected as int
    }
}

/// One row up, if there is one.
pub open spec fn stepped_up(app: App) -> int {
    if app.selected > 0 {
        app.selected - 1
    } else {
        0
    }
}

/// The last row, or the first of an empty view.
pub open spec fn last_row(app: App) -> int {
    if app.view_rows().len() == 0 {
        0
    } else {
        app.view_rows().len() - 1
    }
}

/// Another view, with the selection brought back within it.
pub open spec fn filtered(before: App, filter: Filter, after: App) -> bool {
    &&& after == (App { filter, selected: after.selected, ..before })
    &&& after.selected == clamped(before.selected as int, shown(before.rows@, filter).len())
}

/// What a key does: Ctrl-C leaves, but never orphans a build; help closes on any
/// key; the panel's keys come first where the panel is whose turn it is; then the
/// open question, the open line, or the list.
pub open spec fn key_done(before: App, key: Key, now: u64, after: App, flow: Flow) -> bool {
    if key.ctrl && key.code == KeyCode::Char('c') {
        if before.job matches Some(Job::Build(_)) {
            after == before && flow == Flow::RequestCancel(CancelFor::Quit)
        } else {
            after == (App { should_quit: true, ..before }) && flow is Done
        }
    } else if before.show_help {
        after == (App { show_help: false, ..before }) && flow is Done
    } else if scrolls(before, key.code) {
        &&& flow is Done
        &&& after == (App {
            report_scroll: scrolled(
                before.report_scroll,
                before.report_scroll_max,
                key.code,
            )->0,
            ..before
        })
    } else if before.build_report is Some && before.input is None && before.confirm is None && (
    key.code == KeyCode::Esc || key.code == KeyCode::Enter) {
        after == (App { build_report: None, message: None, ..before }) && flow is Done
    } else if before.confirm is Some {
        answered_question(before, key.code, after, flow)
    } else if before.input is Some {
        typed(before, key.code, after, flow)
    } else {
        listed_key(before, key.code, now, after, flow)
    }
}

/// A plan as a queue.
fn queue_of(plan: Vec<PendingMigrate>) -> (r: VecDeque<PendingMigrate>)
    ensures
        r@ == plan@,
{
    let ghost all = plan@;
    let mut plan = plan;
    let mut queue: VecDeque<PendingMigrate> = VecDeque::new();
    assert(all.skip(all.len() as int) =~= queue@);
    assert(all.take(all.len() as int) =~= plan@);
    while plan.len() > 0
        invariant
            plan@.len() <= all.len(),
            plan@ == all.take(plan@.len() as int),
            queue@ == all.skip(plan@.len() as int),
        decreases plan.len(),
    {
        let ghost n = plan@.len() as int;
        match plan.pop() {
            Some(member) => {
                queue.push_front(member);
                assert(queue@ =~= all.skip(n - 1));
                assert(plan@ =~= all.take(n - 1));
            },
            None => {},
        }
    }
    assert(all.skip(0) =~= all);
    queue
}

impl App {
    /// The panel's own keys. `true` when this key was one of them.
    fn scrolled_report(&mut self, code: KeyCode) -> (r: bool)
        ensures
            match scrolled(old(self).report_scroll, old(self).report_scroll_max, code) {
                Some(offset) => r && *final(self) == (App { report_scroll: offset, ..*old(self) }),
                None => !r && *final(self) == *old(self),
            },
    {
        let max = self.report_scroll_max;
        let offset = self.report_scroll;
        self.report_scroll = match code {
            KeyCode::Up => if offset >= 1 {
                offset - 1
            } else {
                0
            },
            KeyCode::Down => if max >= 1 && offset <= max - 1 {
                offset + 1
            } else {
                max
            },
            KeyCode::PageUp => if offset >= 5 {
                offset - 5
            } else {
                0
            },
            KeyCode::PageDown => if max >= 5 && offset <= max - 5 {
                offset + 5
            } else {
                max
            },
            KeyCode::Home => 0,
            KeyCode::End => max,
            _ => {
                return false;
            },
        };
        true
    }

    /// The one meaning of the cancel key over a running job.
    pub fn cancel_pressed(&mut self) -> (r: Flow)
        ensures
            cancel_key(*old(self), *final(self), r),
    {
        let job = match self.job.take() {
            None => {
                return Flow::Done;
            },
            Some(job) => job,
        };
        match job {
            Job::Build(build) => {
                self.job = Some(Job::Build(build));
                match self.migrate_batch.take() {
                    None => {},
                    Some(mut batch) => {
                        batch.stopping = true;
                        self.migrate_batch = Some(batch);
                    },
                }
                return Flow::RequestCancel(CancelFor::Key);
            },
            Job::Check { .. } => {
                self.job = Some(Job::Check { cancel: true });
                self.info("cancelling the update check…");
            },
            Job::Verify { started, .. } => {
                self.job = Some(Job::Verify { started, cancel: true });
                self.info("verify: cancel requested — the result will be discarded");
            },
            Job::Search { query, .. } => {
                let note = cat3("search `", query.as_str(), "`: cancel requested…");
                self.job = Some(Job::Search { query, cancel: true });
                self.info(note.as_str());
            },
            Job::UpdateSweepCheck { .. } => {
                self.job = Some(Job::UpdateSweepCheck { cancel: true });
                self.info("update check: cancel requested…");
            },
            Job::ReinstallPlan { .. } => {
                self.job = Some(Job::ReinstallPlan { cancel: true });
                self.info("reading the prefix: cancel requested…");
            },
            Job::UpdatePlan { name, .. } => {
                let note = cat3("version lookup for `", name.as_str(), "`: cancel requested…");
                self.job = Some(Job::UpdatePlan { name, cancel: true });
                self.info(note.as_str());
            },
            Job::Downgrade { name, current, .. } => {
                let note = cat3("version lookup for `", name.as_str(), "`: cancel requested…");
                self.job = Some(Job::Downgrade { name, current, cancel: true });
                self.info(note.as_str());
            },
        }
        Flow::Done
    }

    /// A key press.
    pub fn on_key(&mut self, key: Key, now: u64) -> (r: Flow)
        ensures
            key_done(*old(self), key, now, *final(self), r),
    {
        if key.ctrl && matches!(key.code, KeyCode::Char('c')) {
            if self.build_running() {
                return Flow::RequestCancel(CancelFor::Quit);
            }
            self.should_quit = true;
            return Flow::Done;
        }
        if self.show_help {
            self.show_help = false;
            return Flow::Done;
        }
        let question_lets_scroll = match &self.confirm {
            None => true,
            Some(confirm) => confirm.owns_report(),
        };
        if self.build_report.is_some() && self.input.is_none() && question_lets_scroll
            && self.scrolled_report(key.code) {
            return Flow::Done;
        }
        if self.build_report.is_some() && self.input.is_none() && self.confirm.is_none() && matches!(
            key.code,
            KeyCode::Esc | KeyCode::Enter
        ) {
            self.build_report = None;
            self.message = None;
            return Flow::Done;
        }
        if self.confirm.is_some() {
            self.on_key_confirm(key.code)
        } else if self.input.is_some() {
            self.on_key_input(key.code)
        } else {
            self.on_key_list(key.code, now)
        }
    }

    /// A key in the list. A degraded session lets only the keys through that
    /// help: refusing here says why once, instead of each worker discovering it
    /// noisily.
    pub fn on_key_list(&mut self, code: KeyCode, now: u64) -> (r: Flow)
        ensures
            listed_key(*old(self), code, now, *final(self), r),
    {
        if self.manifest_error.is_some() {
            match code {
                KeyCode::Char('q' | 'v' | '?' | 'B') | KeyCode::Esc => {},
                KeyCode::Char('c') if self.oneshot_running() => {},
                KeyCode::Char('r') => {
                    return Flow::Reload(AfterReload::Retry);
                },
                _ => {
                    self.error(
                        "the manifest cannot be loaded — repair it by hand (v lists the findings), then r retries the load",
                    );
                    return Flow::Done;
                },
            }
        }
        match code {
            KeyCode::Char(c) => {
                return self.on_char_list(c, now);
            },
            KeyCode::Esc => {
                if self.downgrade_choice.is_some() {
                    self.downgrade_choice = None;
                } else if self.search_result.is_some() {
                    self.search_result = None;
                } else {
                    return self.leave();
                }
            },
            KeyCode::Down => self.select_next(),
            KeyCode::Up => self.select_prev(),
            KeyCode::Home => {
                self.selected = 0;
            },
            KeyCode::End => self.select_last(),
            KeyCode::Tab => {
                self.filter = self.filter.next();
                self.clamp_selection();
            },
            KeyCode::BackTab => {
                self.filter = self.filter.prev();
                self.clamp_selection();
            },
            KeyCode::Enter => {
                return self.start_update();
            },
            _ => {},
        }
        Flow::Done
    }

    fn select_last(&mut self)
        ensures
            moved_to(*old(self), last_row(*old(self)), *final(self)),
    {
        let len = self.visible().len();
        self.selected = if len == 0 {
            0
        } else {
            len - 1
        };
    }

    fn leave(&mut self) -> (r: Flow)
        ensures
            leaving(*old(self), *final(self), r),
    {
        if self.build_running() {
            self.error("a build is running; c cancels it, Ctrl-C cancels and quits");
        } else {
            self.should_quit = true;
        }
        Flow::Done
    }

    fn on_char_list(&mut self, c: char, now: u64) -> (r: Flow)
        ensures
            listed_char(*old(self), c, now, *final(self), r),
    {
        match c {
            'q' => {
                return self.leave();
            },
            'c' => {
                return self.cancel_pressed();
            },
            '?' => {
                self.show_help = true;
            },
            'j' => self.select_next(),
            'k' => self.select_prev(),
            'g' => {
                self.selected = 0;
            },
            'G' => self.select_last(),
            'r' => {
                return self.start_check();
            },
            'v' => {
                return self.start_verify(now);
            },
            's' => {
                return self.open_input(InputPurpose::Search);
            },
            'i' => {
                return self.open_input(InputPurpose::Install);
            },
            'u' => {
                return self.start_update();
            },
            'U' => {
                return self.start_update_sweep();
            },
            'p' => {
                return self.pin_selected();
            },
            't' => {
                return self.start_reinstall();
            },
            'T' => {
                return self.start_reinstall_sweep();
            },
            'D' => {
                return self.start_downgrade();
            },
            'x' => self.remove_selected(),
            'B' => {
                return Flow::FindPair(PairFor::Jump);
            },
            'm' => {
                if self.selected_row().is_some() {
                    return Flow::FindPair(PairFor::Migrate);
                }
            },
            'M' => {
                return Flow::FindPair(PairFor::MigrateAll);
            },
            _ => {
                if '1' <= c && c <= '9' {
                    let index: usize = (c as u32 - '1' as u32) as usize;
                    if self.downgrade_choice.is_some() {
                        return self.pick_downgrade(index);
                    }
                    self.pick_hit(index);
                }
            },
        }
        Flow::Done
    }

    /// With a search result up, a digit picks a hit and opens the install line.
    fn pick_hit(&mut self, index: usize)
        ensures
            if old(self).search_result is Some {
                hit_picked(*old(self), index as int, *final(self), Flow::Done)
            } else {
                *final(self) == *old(self)
            },
    {
        let name = match &self.search_result {
            None => {
                return ;
            },
            Some(found) => {
                if index >= found.hits.len() {
                    return ;
                }
                found.hits[index].name.clone()
            },
        };
        self.input = Some(Input { purpose: InputPurpose::Install, buffer: name });
    }

    /// Remove the selected crate, after the usual confirmation.
    fn remove_selected(&mut self)
        ensures
            removal_asked(*old(self), *final(self), Flow::Done),
    {
        let (prompt, name) = match self.selected_row() {
            None => {
                return ;
            },
            Some(row) => (
                cat5(
                    "remove ",
                    row.name.as_str(),
                    " (",
                    join(&row.bins, ", ").as_str(),
                    ")? [y/N]",
                ),
                row.name.clone(),
            ),
        };
        self.confirm = Some(Confirm::new(prompt.as_str(), OnConfirm::Remove { name }));
    }

    /// Pin or unpin the selected crate: a manifest write, so the same privilege
    /// question as a removal, answered at the keypress.
    fn pin_selected(&mut self) -> (r: Flow)
        ensures
            pin_asked(*old(self), *final(self), r),
    {
        let (name, pinned) = match self.selected_row() {
            None => {
                return Flow::Done;
            },
            Some(row) => (row.name.clone(), !row.pinned),
        };
        if self.anything_running() {
            self.error("an operation is running or queued; finish or cancel it first");
            return Flow::Done;
        }
        Flow::ProbePrivilege(PendingInPlace::SetPinned { name, pinned })
    }

    /// The decision at the `y` of a removal: refused while anything of the
    /// running family is in flight, since the lock is free while cargo compiles
    /// and a removal could win it and be silently undone by the placement.
    fn remove_confirmed(&mut self, name: String) -> (r: Flow)
        ensures
            removal_confirmed(*old(self), name, *final(self), r),
    {
        if self.anything_running() {
            self.error("an operation is running or queued; finish or cancel it first");
            return Flow::Done;
        }
        Flow::ProbePrivilege(PendingInPlace::Remove(name))
    }

    /// A key for an open question.
    pub fn on_key_confirm(&mut self, code: KeyCode) -> (r: Flow)
        ensures
            answered_question(*old(self), code, *final(self), r),
    {
        let confirm = match self.confirm.take() {
            None => {
                return Flow::Done;
            },
            Some(confirm) => confirm,
        };
        if confirm.owns_report() {
            self.build_report = None;
        }
        if matches!(code, KeyCode::Char('y' | 'Y')) {
            match confirm.action {
                OnConfirm::ReinstallAll { planned } => {
                    self.pending_reinstall_sweep = Some(planned);
                },
                OnConfirm::UpdateAll { planned } => {
                    self.pending_update_sweep = Some(planned);
                },
                OnConfirm::Update { name, expected } => {
                    self.info(cat3("updating ", name.as_str(), "…").as_str());
                    self.pending_build = Some(
                        PendingBuild {
                            spec: name,
                            locked: false,
                            intent: BuildIntent::Update { expected },
                        },
                    );
                },
                OnConfirm::Remove { name } => {
                    return self.remove_confirmed(name);
                },
                OnConfirm::Migrate(plan) => {
                    self.pending_migrate = Some(plan);
                },
                OnConfirm::MigrateAll { dest, plan } => self.begin_migrate_batch(dest, plan),
            }
        } else {
            self.info("cancelled");
        }
        Flow::Done
    }

    /// The whole plan as a queue of single migrations, the first of them taken
    /// out.
    fn begin_migrate_batch(&mut self, dest: String, plan: Vec<PendingMigrate>)
        ensures
            confirmed(
                *old(self),
                OnConfirm::MigrateAll { dest, plan },
                *final(self),
                Flow::Done,
            ),
    {
        if plan.len() == 0 {
            return ;
        }
        let sections = migrate_sections();
        let mut runner = BatchRunner::new(queue_of(plan), &sections);
        proof {
            let s = runner.sections@;
            assert(s[0].key == MigrateSection::Failed);
            assert(s[1].key == MigrateSection::Refused);
            assert(s[2].key == MigrateSection::Incomplete);
            assert(s[3].key == MigrateSection::Noticed);
            crate::batch::lemma_slot(s, MigrateSection::Failed);
            crate::batch::lemma_slot(s, MigrateSection::Refused);
            crate::batch::lemma_slot(s, MigrateSection::Incomplete);
            crate::batch::lemma_slot(s, MigrateSection::Noticed);
        }
        self.pending_migrate = runner.next_member();
        self.migrate_batch = Some(MigrateBatch { dest, runner, stopping: false });
    }

    /// A key for an open input line.
    pub fn on_key_input(&mut self, code: KeyCode) -> (r: Flow)
        ensures
            typed(*old(self), code, *final(self), r),
    {
        let input = match self.input.take() {
            None => {
                return Flow::Done;
            },
            Some(input) => input,
        };
        match code {
            KeyCode::Esc => {},
            KeyCode::Enter => {
                return self.submit_input(input.purpose, input.buffer.as_str());
            },
            KeyCode::Backspace => {
                let chars = chars_of(input.buffer.as_str());
                let to: usize = if chars.len() == 0 {
                    0
                } else {
                    chars.len() - 1
                };
                let buffer = string_of_range(&chars, 0, to);
                proof {
                    if chars@.len() == 0 {
                        assert(buffer@ =~= input.buffer@);
                    } else {
                        assert(buffer@ =~= input.buffer@.drop_last());
                    }
                }
                self.input = Some(Input { purpose: input.purpose, buffer });
            },
            KeyCode::Char(c) => {
                let mut input = input;
                if !is_control(c) {
                    input.buffer.push(c);
                }
                self.input = Some(input);
            },
            _ => {
                self.input = Some(input);
            },
        }
        Flow::Done
    }

    /// A line was submitted. More than one crate is one operation over a plan.
    pub fn submit_input(&mut self, purpose: InputPurpose, buffer: &str) -> (r: Flow)
        ensures
            submitted(*old(self), purpose, buffer@, *final(self), r),
    {
        match purpose {
            InputPurpose::Install => {
                let parsed = parse_install_input(buffer);
                let ghost line = parsed;
                assert(install_line(buffer@, line));
                match parsed {
                    Err(e) => self.error(e.as_str()),
                    Ok((crates, locked)) => {
                        proof {
                            assert(texts(crates@).len() == crates@.len());
                        }
                        if crates.len() > 1 {
                            self.pending_install_batch = Some((crates, locked));
                        } else {
                            let spec = crates[0].clone();
                            self.info(cat3("building ", spec.as_str(), "…").as_str());
                            self.pending_build = Some(
                                PendingBuild { spec, locked, intent: BuildIntent::Install },
                            );
                        }
                    },
                }
                Flow::Done
            },
            InputPurpose::Search => match parse_search_input(buffer) {
                Ok(query) => self.start_search(query),
                Err(e) => {
                    self.error(e.as_str());
                    Flow::Done
                },
            },
        }
    }

    /// Open an input line.
    pub fn open_input(&mut self, purpose: InputPurpose) -> (r: Flow)
        ensures
            input_opened(*old(self), purpose, *final(self), r),
    {
        if self.job.is_some() {
            self.error("busy; wait for the current job to finish");
            return Flow::Done;
        }
        self.input = Some(Input { purpose, buffer: String::new() });
        Flow::Done
    }
}

} // verus!

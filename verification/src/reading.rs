//! Reading a saved conversation: its pages make up the conversation in its own order, late pages change
//! nothing, and what is exported or followed up is what is shown.

use vstd::prelude::*;
use vstd::string::*;

use crate::app::{App, ArchivedConversation, SavedTranscript};
use crate::archive::{
    agents_differ, broken, followup_draft, joined, lists_agent, scrolled, transcript_height,
};
use crate::navigation::optional_scoped;
use crate::protocol::ConversationBlock;
use crate::text::{blank, holds, optional, stands_at};

verus! {

/// One page that arrives: what is shown before and after it, the request that it answers, the page, and
/// where in the conversation it starts.
pub struct PageTurn {
    pub before: App,
    pub after: App,
    pub request_id: u64,
    pub page: SavedTranscript,
    pub start: int,
}

/// A conversation that is read from its newest page backwards: each page ends where the one before it
/// starts, each is awaited, and nothing else is read between.
pub open spec fn reads_backwards(whole: Seq<ConversationBlock>, turns: Seq<PageTurn>) -> bool {
    &&& turns.len() > 0
    &&& 0 <= turns[0].start <= whole.len()
    &&& turns[0].page.blocks@ == whole.skip(turns[0].start)
    &&& forall|i: int|
        0 <= i < turns.len() ==> (#[trigger] turns[i]).before.awaits_page(
            turns[i].request_id,
            turns[i].page.archive,
            i > 0,
        ) && turns[i].before.page_arrived(
            turns[i].after,
            turns[i].request_id,
            turns[i].page,
            i > 0,
        )
    &&& forall|i: int, j: int|
        #![trigger turns[i], turns[j]]
        0 <= i && j == i + 1 && j < turns.len() ==> 0 <= turns[j].start <= turns[i].start
            && turns[j].page.blocks@ == whole.subrange(turns[j].start, turns[i].start)
            && turns[j].before.saved_transcript == turns[i].after.saved_transcript
}

/// What is shown of a conversation that is read backwards is its end, in its own order, from the start
/// of the oldest page that was read; after the page that starts it, it is the whole conversation.
pub proof fn pages_make_up_the_conversation(
    whole: Seq<ConversationBlock>,
    turns: Seq<PageTurn>,
    at: int,
)
    requires
        reads_backwards(whole, turns),
        0 <= at < turns.len(),
    ensures
        turns[at].after.saved_transcript is Some,
        turns[at].after.saved_transcript->0.blocks@ == whole.skip(turns[at].start),
        turns[at].start == 0 ==> turns[at].after.saved_transcript->0.blocks@ == whole,
        turns[at].after.saved_transcript->0.prev_cursor == turns[at].page.prev_cursor,
        turns[at].after.saved_transcript->0.archive == turns[0].page.archive,
        0 <= turns[at].start <= whole.len(),
    decreases at,
{
    if at > 0 {
        pages_make_up_the_conversation(whole, turns, at - 1);
        let (from, to) = (turns[at].start, turns[at - 1].start);
        assert(turns[at].before.saved_transcript == turns[at - 1].after.saved_transcript);
        assert(whole.subrange(from, to) + whole.skip(to) =~= whole.skip(from));
    }
    if turns[at].start == 0 {
        assert(whole.skip(0) =~= whole);
    }
}

/// What was read before stays as it is, behind the page that is older than it; any other page takes its
/// place. Whatever arrives is shown from its end, and the way further back is that of the page.
pub proof fn an_older_page_stands_before_what_was_read(
    app: App,
    after: App,
    request_id: u64,
    page: SavedTranscript,
    older: bool,
)
    requires
        app.awaits_page(request_id, page.archive, older),
        app.page_arrived(after, request_id, page, older),
    ensures
        after.saved_transcript is Some,
        page.blocks@.is_prefix_of(after.saved_transcript->0.blocks@),
        after.saved_transcript->0.prev_cursor == page.prev_cursor,
        after.saved_scroll == 0,
        !after.archive_loading,
        older && app.saved_transcript is Some ==> {
            &&& app.saved_transcript->0.blocks@.is_suffix_of(after.saved_transcript->0.blocks@)
            &&& after.saved_transcript->0.blocks@.len() == page.blocks@.len()
                + app.saved_transcript->0.blocks@.len()
        },
        !(older && app.saved_transcript is Some) ==> after.saved_transcript->0.blocks@
            == page.blocks@,
{
    let shown = after.saved_transcript->0.blocks@;
    if older && app.saved_transcript is Some {
        let read = app.saved_transcript->0.blocks@;
        assert(shown.take(page.blocks@.len() as int) =~= page.blocks@);
        assert(shown.skip(shown.len() - read.len()) =~= read);
    } else {
        assert(shown.take(page.blocks@.len() as int) =~= page.blocks@);
    }
}

/// A page changes nothing where it answers another request than the open one, belongs to another
/// workspace, or is to stand before the conversation of another agent.
pub proof fn a_late_page_changes_nothing(
    app: App,
    after: App,
    request_id: u64,
    page: SavedTranscript,
    older: bool,
)
    requires
        app.page_arrived(after, request_id, page, older),
        app.active_archive_request != Some(request_id) || optional(app.workspace_id) != Some(
            page.archive.workspace_id@,
        ) || (older && app.saved_transcript is Some
            && app.saved_transcript->0.archive.agent_id@ != page.archive.agent_id@),
    ensures
        after == app,
{
}

/// The page before what was read is asked for with the cursor that came with it, under a number of its
/// own, and once: as long as it is awaited nothing else is asked for. What was read stays shown.
pub proof fn an_older_page_is_asked_for_once(app: App)
    ensures
        ({
            let after = app.asked_older();
            let wanted = !app.archive_loading && app.saved_transcript is Some
                && app.saved_transcript->0.prev_cursor is Some;
            &&& after.asked_older() == after
            &&& after.saved_transcript == app.saved_transcript
            &&& !wanted ==> after == app
            &&& wanted ==> {
                &&& after.archive_loading
                &&& after.pending_archive is Some
                &&& after.pending_archive->0.archive == app.saved_transcript->0.archive
                &&& after.pending_archive->0.cursor == app.saved_transcript->0.prev_cursor
                &&& after.active_archive_request == Some(after.pending_archive->0.id)
                &&& after.next_archive_request == after.pending_archive->0.id
                &&& after.next_archive_request != app.next_archive_request
                &&& app.workspace() == Some(app.saved_transcript->0.archive.workspace_id@)
                    ==> after.awaits_page(
                    after.pending_archive->0.id,
                    app.saved_transcript->0.archive,
                    true,
                )
            }
        }),
{
}

/// A page of the archive that brings only agents that are not listed yet is put behind the list as it
/// is, and one that brings only agents that are listed changes nothing.
pub proof fn arriving_archives_keep_their_order(
    archives: Seq<ArchivedConversation>,
    arriving: Seq<ArchivedConversation>,
)
    ensures
        agents_differ(arriving) && (forall|i: int|
            0 <= i < arriving.len() ==> !lists_agent(archives, (#[trigger] arriving[i]).agent_id@))
            ==> joined(archives, arriving) == archives + arriving,
        (forall|i: int|
            0 <= i < arriving.len() ==> lists_agent(archives, (#[trigger] arriving[i]).agent_id@))
            ==> joined(archives, arriving) == archives,
    decreases arriving.len(),
{
    if arriving.len() > 0 {
        let before = arriving.drop_last();
        let last = arriving.last();
        arriving_archives_keep_their_order(archives, before);
        assert(last == arriving[arriving.len() - 1]);
        if agents_differ(arriving) && (forall|i: int|
            0 <= i < arriving.len() ==> !lists_agent(archives, (#[trigger] arriving[i]).agent_id@)) {
            assert forall|i: int| 0 <= i < before.len() implies !lists_agent(
                archives,
                (#[trigger] before[i]).agent_id@,
            ) by {
                assert(before[i] == arriving[i]);
            }
            assert(agents_differ(before));
            let all = archives + before;
            assert(joined(archives, before) == all);
            if lists_agent(all, last.agent_id@) {
                let i = choose|i: int|
                    0 <= i < all.len() && (#[trigger] all[i]).agent_id@ == last.agent_id@;
                if i < archives.len() {
                    assert(archives[i] == all[i]);
                    assert(lists_agent(archives, last.agent_id@));
                } else {
                    assert(arriving[i - archives.len()] == all[i]);
                }
                assert(false);
            }
            assert(all.push(last) =~= archives + arriving);
        }
        if forall|i: int|
            0 <= i < arriving.len() ==> lists_agent(archives, (#[trigger] arriving[i]).agent_id@) {
            assert forall|i: int| 0 <= i < before.len() implies lists_agent(
                archives,
                (#[trigger] before[i]).agent_id@,
            ) by {
                assert(before[i] == arriving[i]);
            }
            assert(lists_agent(archives, last.agent_id@));
        }
    } else {
        assert(archives + arriving =~= archives);
    }
}

/// A page of the archive is of use only where it belongs to the workspace that is shown, and then says
/// where to go on.
pub proof fn archives_of_other_workspaces_are_not_listed(
    app: App,
    after: App,
    workspace_id: Seq<char>,
    archives: Seq<ArchivedConversation>,
    next_cursor: Option<String>,
)
    requires
        app.archives_arrived(after, workspace_id, archives, next_cursor),
    ensures
        optional(app.workspace_id) != Some(workspace_id) ==> after == app,
        optional(app.workspace_id) == Some(workspace_id) ==> after.archive_next_cursor
            == next_cursor && app.archives@.len() <= after.archives@.len() && after.cursor
            == app.cursor,
{
    lemma_joined_grows(app.archives@, archives);
}

proof fn lemma_joined_grows(
    archives: Seq<ArchivedConversation>,
    arriving: Seq<ArchivedConversation>,
)
    ensures
        archives.len() <= joined(archives, arriving).len(),
    decreases arriving.len(),
{
    if arriving.len() > 0 {
        lemma_joined_grows(archives, arriving.drop_last());
    }
}

/// A scroll goes as far as it is asked to, between the start and the limit.
pub proof fn a_scroll_goes_where_it_is_asked_to(offset: u16, delta: isize, limit: u16)
    requires
        offset <= limit,
        i16::MIN <= delta <= i16::MAX,
    ensures
        scrolled(offset, delta, limit) <= limit,
        0 <= offset + delta <= limit ==> scrolled(offset, delta, limit) == offset + delta,
        offset + delta < 0 ==> scrolled(offset, delta, limit) == 0,
        offset + delta > limit ==> scrolled(offset, delta, limit) == limit,
{
}

/// A line is broken into just as many lines as it needs.
pub proof fn broken_lines_hold_the_line(length: nat, width: nat)
    requires
        width > 0,
    ensures
        broken(length, width) >= 1,
        length <= broken(length, width) * width,
        length > 0 ==> (broken(length, width) - 1) * width < length,
{
    if length > 0 {
        let lines = (length + width - 1) / width as int;
        vstd::arithmetic::div_mod::lemma_fundamental_div_mod(length + width - 1, width as int);
        let rest = (length + width - 1) % (width as int);
        assert(0 <= rest < width);
        assert(lines * width == width * lines) by (nonlinear_arith);
        assert((lines - 1) * width == lines * width - width) by (nonlinear_arith);
        assert(lines >= 1) by (nonlinear_arith)
            requires
                lines * width == width * lines,
                width * lines + rest == length + width - 1,
                0 <= rest < width,
                length > 0,
                width > 0,
        ;
    }
}

/// A saved conversation can be scrolled by the lines that the pane does not hold: not at all where it
/// holds them all, else until the last line stands at its end.
pub proof fn a_transcript_is_scrolled_to_its_end(app: App)
    requires
        app.saved_transcript is Some,
        app.pane_area.width > 3,
        app.pane_area.height > 2,
    ensures
        ({
            let lines = transcript_height(
                app.saved_transcript->0.blocks@,
                (app.pane_area.width - 2) as nat,
            );
            let held = app.pane_area.height - 2;
            &&& lines <= held ==> app.scroll_limit() == 0
            &&& held < lines <= held + u16::MAX ==> app.scroll_limit() + held == lines
        }),
{
}

/// A follow-up is made of the mission whose saved conversation is shown, on the machine that is shown;
/// its objective is asked for, and anything that was known of another one is gone.
pub proof fn a_followup_is_made_of_what_is_shown(app: App)
    ensures
        app.saved_transcript is None ==> app.begun_followup() == app,
        app.saved_transcript is Some ==> ({
            let after = app.begun_followup();
            &&& after.fixed_preview is Some
            &&& after.fixed_preview->0.archive == app.saved_transcript->0.archive
            &&& after.fixed_preview->0.host_id == app.selected_host
            &&& after.fixed_preview->0.objective is None
            &&& after.wanted_objective() == Some(
                (app.selected_host, app.saved_transcript->0.archive),
            )
            &&& after.followup() is None
            &&& after.saved_transcript == app.saved_transcript
        }),
{
}

/// The objective of a mission is taken only where that mission, on that machine and of that workspace,
/// is followed up.
pub proof fn only_the_objective_of_the_mission_is_taken(
    app: App,
    host: Seq<char>,
    archive: ArchivedConversation,
    objective: String,
)
    ensures
        ({
            let after = app.objective_arrived(host, archive, objective);
            let own = app.fixed_preview is Some && app.fixed_preview->0.host_id@ == host
                && app.fixed_preview->0.archive.mission_id@ == archive.mission_id@
                && app.fixed_preview->0.archive.workspace_id@ == archive.workspace_id@;
            &&& !own ==> after == app
            &&& own ==> after.followup() == Some((archive.mission_id@, objective@))
                && after.fixed_preview->0.host_id == app.fixed_preview->0.host_id
                && after.pending_followup_draft == app.pending_followup_draft
        }),
{
}

/// A follow-up is sent once its objective is known, and not before: the draft names the mission and
/// quotes its objective, and the leader of the workspace is asked for.
pub proof fn a_followup_quotes_the_objective(app: App, after: App)
    requires
        app.submitted_followup(after),
    ensures
        app.fixed_preview is None ==> after == app,
        app.fixed_preview is Some && app.fixed_preview->0.objective is None ==> {
            &&& after.fixed_preview == app.fixed_preview
            &&& after.pending_followup_draft == app.pending_followup_draft
            &&& after.pending_target == app.pending_target
            &&& after.error is Some
        },
        app.fixed_preview is Some && app.fixed_preview->0.objective is Some ==> {
            &&& after.fixed_preview is None
            &&& after.pending_followup_draft is Some
            &&& holds(
                after.pending_followup_draft->0@,
                seq!['`'] + app.fixed_preview->0.archive.mission_id@ + seq!['`'],
            )
            &&& holds(
                after.pending_followup_draft->0@,
                seq!['\n', '>', ' '] + app.fixed_preview->0.objective->0@ + seq!['\n'],
            )
            &&& optional_scoped(after.pending_target) == app.leader()
            &&& after.pending_target is Some ==> !after.nav_focused
        },
{
    if app.fixed_preview is Some && app.fixed_preview->0.objective is Some {
        let mission = app.fixed_preview->0.archive.mission_id@;
        let objective = app.fixed_preview->0.objective->0@;
        lemma_draft(mission, objective);
    }
}

proof fn lemma_draft(mission: Seq<char>, objective: Seq<char>)
    ensures
        holds(followup_draft(mission, objective), seq!['`'] + mission + seq!['`']),
        holds(followup_draft(mission, objective), seq!['\n', '>', ' '] + objective + seq!['\n']),
{
    reveal_strlit(
        "Create a new mission with neta_mission. Choose a meaningful name and set its `continues` parameter to `",
    );
    reveal_strlit("`. Use this original objective as context:\n\n> ");
    reveal_strlit("\n\nDo not resume the archived session.");
    let first =
        "Create a new mission with neta_mission. Choose a meaningful name and set its `continues` parameter to `"@;
    let second = "`. Use this original objective as context:\n\n> "@;
    let third = "\n\nDo not resume the archived session."@;
    let draft = followup_draft(mission, objective);
    let at = first.len() - 1;
    let name = seq!['`'] + mission + seq!['`'];
    assert(draft =~= first + mission + second + objective + third);
    assert(first[at] == '`');
    assert(second[0] == '`');
    assert(draft.subrange(at, at + name.len()) =~= name);
    assert(stands_at(draft, name, at));
    let from = first.len() + mission.len() + second.len() - 3;
    let quote = seq!['\n', '>', ' '] + objective + seq!['\n'];
    assert(second[second.len() - 3] == '\n');
    assert(second[second.len() - 2] == '>');
    assert(second[second.len() - 1] == ' ');
    assert(third[0] == '\n');
    assert(draft.subrange(from, from + quote.len()) =~= quote);
    assert(stands_at(draft, quote, from));
}

/// The conversation that is shown is exported to the file that was named; without a name, or without a
/// conversation, nothing is exported.
pub proof fn the_conversation_that_is_shown_is_exported(app: App, after: App)
    requires
        app.submitted_export(after),
    ensures
        after.export_path is None,
        after.saved_transcript == app.saved_transcript,
        app.saved_transcript is Some && app.export_path is Some && !blank(app.export_path->0@)
            ==> after.pending_archive_export == Some(
            (app.saved_transcript->0.archive, app.export_path->0),
        ),
        !(app.saved_transcript is Some && app.export_path is Some && !blank(app.export_path->0@))
            ==> after.pending_archive_export == app.pending_archive_export,
        app.saved_transcript is Some && app.export_path is Some && blank(app.export_path->0@)
            ==> after.error is Some,
{
}

/// Diagnostics are exported to the directory that was named, one export at a time.
pub proof fn one_export_of_diagnostics_is_made_at_a_time(app: App, after: App)
    requires
        app.submitted_diagnostics(after),
    ensures
        app.diagnostics_exporting ==> after == app,
        !app.diagnostics_exporting && app.diagnostics_export_path is Some ==> {
            &&& after.diagnostics_export_path is None
            &&& blank(app.diagnostics_export_path->0@) <==> !after.diagnostics_exporting
            &&& after.diagnostics_exporting ==> after.pending_diagnostics_export
                == app.diagnostics_export_path
            &&& !after.diagnostics_exporting ==> after.error is Some
                && after.pending_diagnostics_export == app.pending_diagnostics_export
        },
        app.diagnostics_export_path is None ==> after == app,
{
}

} // verus!

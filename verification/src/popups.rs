//! Drawing the header, the status lines and what opens over the pane.

use vstd::prelude::*;
use vstd::string::*;

use crate::app::{App, FollowupPreview, HostChoice, SavedTranscript, WorkspaceChoice, MACHINE_FORM_FIELDS};
use crate::archive::block_text;
use crate::canvas::{
    line_views, paint_views, Caption, Look, Paint, PaintView, Sides, TextLine, TextLineView, AMBER,
    GROUND, MUTED, RULE, TEXT,
};
use crate::drawing::{
    above_rule, append_paints, bare, bare_lines, frame_around, new_frame, new_text, push_line,
    push_paint, text_in, to_bare_lines, whole, without_last_row,
};
use crate::geometry::{difference, least, minus, plus, rect, smaller, sum, Rect, ScreenLayout};
use crate::labels::{clip_label, clipped, needs_person, tail_of, tail_text, waits_for_person};
use crate::protocol::{find_leader, label_of, leads, status_label, ConversationBlock, Mission};
use crate::seqs::find;
use crate::tabs::{header_machine, header_workspace};
use crate::text::{concat2, concat3, concat4, contains, decimal, decimal_of, holds, optional, same_text};

verus! {

/// The missions of a workspace that are running.
pub open spec fn running_in(workspace: Option<Seq<char>>) -> spec_fn(Mission) -> bool {
    |mission: Mission| workspace == Some(mission.workspace_id@) && mission.state@ == "running"@
}

/// The missions of a workspace that wait for a person.
pub open spec fn waiting_in(workspace: Option<Seq<char>>) -> spec_fn(Mission) -> bool {
    |mission: Mission|
        workspace == Some(mission.workspace_id@) && waits_for_person(mission.state@)
}

/// How many missions of a workspace are running, and how many wait for a person.
pub open spec fn counts_line(running: nat, waiting: nat) -> Seq<char> {
    decimal_of(running) + " running · "@ + decimal_of(waiting) + " needs you"@
}

fn write_counts(running: usize, waiting: usize) -> (line: String)
    ensures
        line@ == counts_line(running as nat, waiting as nat),
{
    concat4(&decimal(running as u64), " running · ", &decimal(waiting as u64), " needs you")
}

/// A frame in amber, with lines of text in it.
pub open spec fn popup_drawn(
    area: Rect,
    caption: Option<Caption>,
    lines: Seq<TextLineView>,
    ground: Look,
) -> Seq<PaintView> {
    seq![
        frame_around(area, caption, AMBER, ground),
        text_in(area.inside(), lines, ground),
    ]
}

fn draw_popup(area: Rect, caption: Option<Caption>, lines: Vec<TextLine>, ground: Look) -> (paints:
    Vec<Paint>)
    ensures
        paint_views(paints@) == popup_drawn(area, caption, line_views(lines@), ground),
{
    let ghost drawn = popup_drawn(area, caption, line_views(lines@), ground);
    let mut paints: Vec<Paint> = Vec::new();
    push_paint(&mut paints, new_frame(area, caption, AMBER, ground));
    push_paint(&mut paints, new_text(area.inner(), lines, ground));
    assert(paint_views(paints@) =~= drawn);
    paints
}

/// The lines of the blocks of a conversation.
pub open spec fn blocks_lines(blocks: Seq<ConversationBlock>) -> Seq<TextLineView> {
    blocks.map_values(
        |block: ConversationBlock|
            whole(
                block_text(block),
                Look::ink(
                    if block.kind@ == "tool"@ {
                        AMBER
                    } else {
                        TEXT
                    },
                ),
            ),
    )
}

/// The lines of a saved conversation.
pub open spec fn transcript_lines(saved: SavedTranscript) -> Seq<TextLineView> {
    seq![
        whole(
            " ARCHIVED · "@ + saved.archive.agent_name@ + " · "@ + saved.archive.mission_name@,
            Look::ink(AMBER),
        ),
        whole(
            " Saved transcript · read-only · PageUp loads older history · f starts follow-up · e exports archived session"@,
            Look::ink(MUTED),
        ),
        bare(""@),
    ] + if saved.blocks@.len() == 0 {
        seq![whole("No saved transcript blocks"@, Look::ink(MUTED))]
    } else {
        blocks_lines(saved.blocks@)
    }
}

fn write_transcript(saved: &SavedTranscript) -> (lines: Vec<TextLine>)
    ensures
        line_views(lines@) == transcript_lines(*saved),
{
    let mut lines: Vec<TextLine> = Vec::new();
    let ghost wanted = blocks_lines(saved.blocks@);
    push_line(
        &mut lines,
        concat4(" ARCHIVED · ", &saved.archive.agent_name, " · ", &saved.archive.mission_name),
        Look::new_ink(AMBER),
    );
    push_line(
        &mut lines,
        " Saved transcript · read-only · PageUp loads older history · f starts follow-up · e exports archived session".to_owned(),
        Look::new_ink(MUTED),
    );
    push_line(&mut lines, "".to_owned(), Look::new_plain());
    let ghost head = line_views(lines@);
    if saved.blocks.len() == 0 {
        push_line(&mut lines, "No saved transcript blocks".to_owned(), Look::new_ink(MUTED));
        assert(line_views(lines@) =~= transcript_lines(*saved));
        return lines;
    }
    let mut at: usize = 0;
    assert(head + wanted.take(0) =~= head);
    while at < saved.blocks.len()
        invariant
            at <= saved.blocks@.len(),
            wanted == blocks_lines(saved.blocks@),
            line_views(lines@) == head + wanted.take(at as int),
        decreases saved.blocks@.len() - at,
    {
        let block = &saved.blocks[at];
        let ink: u32 = if same_text(&block.kind, "tool") {
            AMBER
        } else {
            TEXT
        };
        push_line(&mut lines, concat3(&block.role, ": ", &block.text), Look::new_ink(ink));
        assert(line_views(lines@) =~= head + wanted.take(at + 1));
        at = at + 1;
    }
    assert(line_views(lines@) =~= transcript_lines(*saved));
    lines
}

/// The lines of a follow-up before it is sent.
pub open spec fn followup_lines(preview: FollowupPreview) -> Seq<TextLineView> {
    let objective = match preview.objective {
        Some(objective) => objective@,
        None => "Loading original objective…"@,
    };
    seq![
        whole(" Start follow-up"@, (Look { fg: Some(AMBER), bg: None, bold: true })),
        bare(" Source mission: "@ + preview.archive.mission_id@),
        bare(" Original objective:"@),
        whole(objective, Look::ink(TEXT)),
        bare(""@),
        whole(" Enter · Insert draft into leader editor · Esc cancels"@, Look::ink(MUTED)),
    ]
}

fn write_followup_lines(preview: &FollowupPreview) -> (lines: Vec<TextLine>)
    ensures
        line_views(lines@) == followup_lines(*preview),
{
    let objective: &str = match &preview.objective {
        Some(objective) => objective.as_str(),
        None => "Loading original objective…",
    };
    let mut lines: Vec<TextLine> = Vec::new();
    push_line(
        &mut lines,
        " Start follow-up".to_owned(),
        Look { fg: Some(AMBER), bg: None, bold: true },
    );
    push_line(
        &mut lines,
        concat2(" Source mission: ", &preview.archive.mission_id),
        Look::new_plain(),
    );
    push_line(&mut lines, " Original objective:".to_owned(), Look::new_plain());
    push_line(&mut lines, objective.to_owned(), Look::new_ink(TEXT));
    push_line(&mut lines, "".to_owned(), Look::new_plain());
    push_line(
        &mut lines,
        " Enter · Insert draft into leader editor · Esc cancels".to_owned(),
        Look::new_ink(MUTED),
    );
    assert(line_views(lines@) =~= followup_lines(*preview));
    lines
}

/// The sign before what the cursor stands on.
pub open spec fn pointer(chosen: bool) -> Seq<char> {
    if chosen {
        ">"@
    } else {
        " "@
    }
}

/// The colour of what the cursor stands on.
pub open spec fn choice_look(chosen: bool) -> Look {
    Look::ink(
        if chosen {
            AMBER
        } else {
            TEXT
        },
    )
}

fn to_pointer(chosen: bool) -> (sign: &'static str)
    ensures
        sign@ == pointer(chosen),
{
    if chosen {
        ">"
    } else {
        " "
    }
}

fn to_choice_look(chosen: bool) -> (look: Look)
    ensures
        look == choice_look(chosen),
{
    if chosen {
        Look::new_ink(AMBER)
    } else {
        Look::new_ink(TEXT)
    }
}

/// The label of a field of the form for a machine.
pub open spec fn field_label(field: int) -> Seq<char> {
    if field == 0 {
        "SSH alias or user@host"@
    } else if field == 1 {
        "Display name"@
    } else if field == 2 {
        "Remote NETA dir"@
    } else if field == 3 {
        "Remote workspace (optional)"@
    } else if field == 4 {
        "SSH config path (optional)"@
    } else {
        "Remote launcher executable (optional)"@
    }
}

fn to_field_label(field: usize) -> (label: &'static str)
    ensures
        label@ == field_label(field as int),
{
    if field == 0 {
        "SSH alias or user@host"
    } else if field == 1 {
        "Display name"
    } else if field == 2 {
        "Remote NETA dir"
    } else if field == 3 {
        "Remote workspace (optional)"
    } else if field == 4 {
        "SSH config path (optional)"
    } else {
        "Remote launcher executable (optional)"
    }
}

/// The lines of the machines in the picker, and of the entry for a new one.
pub open spec fn host_lines(hosts: Seq<HostChoice>, cursor: usize) -> Seq<TextLineView> {
    Seq::new(
        hosts.len(),
        |i: int| whole(pointer(i == cursor) + " "@ + hosts[i].label@, choice_look(i == cursor)),
    ).push(
        whole(
            pointer(cursor == hosts.len()) + " + Add SSH machine"@,
            choice_look(cursor == hosts.len()),
        ),
    )
}

fn push_hosts(lines: &mut Vec<TextLine>, hosts: &Vec<HostChoice>, cursor: usize)
    ensures
        line_views(final(lines)@) == line_views(old(lines)@) + host_lines(hosts@, cursor),
{
    let ghost head = line_views(lines@);
    let ghost wanted = Seq::new(
        hosts@.len(),
        |i: int| whole(pointer(i == cursor) + " "@ + hosts@[i].label@, choice_look(i == cursor)),
    );
    let mut at: usize = 0;
    assert(head + wanted.take(0) =~= head);
    while at < hosts.len()
        invariant
            at <= hosts@.len(),
            wanted == Seq::new(
                hosts@.len(),
                |i: int|
                    whole(pointer(i == cursor) + " "@ + hosts@[i].label@, choice_look(i == cursor)),
            ),
            line_views(lines@) == head + wanted.take(at as int),
        decreases hosts@.len() - at,
    {
        let chosen: bool = at == cursor;
        push_line(
            lines,
            concat3(to_pointer(chosen), " ", &hosts[at].label),
            to_choice_look(chosen),
        );
        assert(line_views(lines@) =~= head + wanted.take(at + 1));
        at = at + 1;
    }
    let chosen: bool = cursor == hosts.len();
    push_line(lines, concat2(to_pointer(chosen), " + Add SSH machine"), to_choice_look(chosen));
    assert(line_views(lines@) =~= head + host_lines(hosts@, cursor));
}

/// What a workspace in the picker does.
pub open spec fn activity(running: nat, waiting: nat) -> Seq<char> {
    if running == 0 && waiting == 0 {
        "idle"@
    } else {
        counts_line(running, waiting)
    }
}

/// The two lines of a workspace in the picker.
pub open spec fn workspace_lines(choice: WorkspaceChoice, chosen: bool) -> Seq<TextLineView> {
    seq![
        whole(
            pointer(chosen) + " "@ + choice.name@ + "  ·  "@ + choice.host_label@ + "  ·  "@ + (
            if choice.connected {
                "CONNECTED"@
            } else {
                "OFFLINE · CACHED"@
            }) + activity(choice.running as nat, choice.needs_you as nat),
            choice_look(chosen),
        ),
        whole("    "@ + choice.path@, Look::ink(MUTED)),
    ]
}

/// The lines of the workspaces in the picker.
pub open spec fn workspaces_lines(choices: Seq<WorkspaceChoice>, cursor: usize) -> Seq<TextLineView>
    decreases choices.len(),
{
    if choices.len() == 0 {
        seq![]
    } else {
        workspaces_lines(choices.drop_last(), cursor) + workspace_lines(
            choices.last(),
            choices.len() - 1 == cursor,
        )
    }
}

fn push_workspace(lines: &mut Vec<TextLine>, choice: &WorkspaceChoice, chosen: bool)
    ensures
        line_views(final(lines)@) == line_views(old(lines)@) + workspace_lines(*choice, chosen),
{
    let ghost head = line_views(lines@);
    let start = concat4(to_pointer(chosen), " ", &choice.name, "  ·  ");
    let connected: &str = if choice.connected {
        "CONNECTED"
    } else {
        "OFFLINE · CACHED"
    };
    let middle = concat4(&start, &choice.host_label, "  ·  ", connected);
    let activity = if choice.running == 0 && choice.needs_you == 0 {
        "idle".to_owned()
    } else {
        write_counts(choice.running, choice.needs_you)
    };
    push_line(lines, concat2(&middle, &activity), to_choice_look(chosen));
    push_line(lines, concat2("    ", &choice.path), Look::new_ink(MUTED));
    assert(line_views(lines@) =~= head + workspace_lines(*choice, chosen));
}

/// The lines of the form for a machine: its fields, and below each of them, where the cursor in the
/// list behind stands on a saved machine, what can be done with that.
pub open spec fn form_lines(app: App, count: int) -> Seq<TextLineView>
    decreases count,
{
    if count <= 0 {
        seq![]
    } else {
        let field = count - 1;
        let chosen = field == app.add_host_field;
        let line = whole(
            pointer(chosen) + " "@ + field_label(field) + ": "@ + app.add_host_fields@[field]@,
            choice_look(chosen),
        );
        let before = form_lines(app, count - 1).push(line);
        if app.points_at_saved_host() {
            before.push(whole("e edit · d remove"@, Look::ink(MUTED)))
        } else {
            before
        }
    }
}

/// The lines of the help.
pub open spec fn help_lines() -> Seq<TextLineView> {
    seq![
        bare("Ctrl+Q  quit and restore terminal"@),
        bare("Ctrl+K  open project / workspace picker"@),
        bare("Ctrl+Space  move focus between spine and Pi"@),
        bare("Ctrl+Space, m  choose or reconnect a machine (navigation focused)"@),
        bare("Machine picker: e edit · d forget saved machine · Local is protected"@),
        bare("Ctrl+Space, c  enter Pi copy view; Ctrl+Space returns to navigation"@),
        bare("Ctrl+Space, Shift+E  export diagnostics from connected machines"@),
        bare("↑ ↓     move through missions"@),
        bare("s       cycle status filter (navigation focused)"@),
        bare("Home End / PgUp PgDn  oldest, newest, and page through history"@),
        bare("0       open the workspace leader at Now"@),
        bare("Enter   expand mission / focus agent"@),
        bare("[ ]     switch open tabs while navigation is focused"@),
        bare("x       close the active view; work keeps running"@),
        bare("t       show overflowed tabs; tab × closes that view"@),
        bare(""@),
        bare("Pi ACP commands:"@),
        bare("/neta-providers [id]  list or switch provider"@),
        bare("/neta-model [id]      list or switch model"@),
        bare("/neta-reset           reset and reattach this conversation"@),
        bare("/neta-history         load the previous history page"@),
        bare("/neta-copy            copy the latest remote agent response"@),
        bare(""@),
        bare("Pi receives Ctrl+C, arrows, Alt/Ctrl keys, paste, and mouse."@),
        bare("↑↓ PgUp/PgDn scroll · Esc/F1 closes help."@),
    ]
}

fn push_bare(lines: &mut Vec<TextLine>, text: &str)
    ensures
        line_views(final(lines)@) == line_views(old(lines)@).push(bare(text@)),
{
    push_line(lines, text.to_owned(), Look::new_plain());
}

fn write_help() -> (lines: Vec<TextLine>)
    ensures
        line_views(lines@) == help_lines(),
{
    let mut lines: Vec<TextLine> = Vec::new();
    push_bare(&mut lines, "Ctrl+Q  quit and restore terminal");
    push_bare(&mut lines, "Ctrl+K  open project / workspace picker");
    push_bare(&mut lines, "Ctrl+Space  move focus between spine and Pi");
    push_bare(&mut lines, "Ctrl+Space, m  choose or reconnect a machine (navigation focused)");
    push_bare(&mut lines, "Machine picker: e edit · d forget saved machine · Local is protected");
    push_bare(&mut lines, "Ctrl+Space, c  enter Pi copy view; Ctrl+Space returns to navigation");
    push_bare(&mut lines, "Ctrl+Space, Shift+E  export diagnostics from connected machines");
    push_bare(&mut lines, "↑ ↓     move through missions");
    push_bare(&mut lines, "s       cycle status filter (navigation focused)");
    push_bare(&mut lines, "Home End / PgUp PgDn  oldest, newest, and page through history");
    push_bare(&mut lines, "0       open the workspace leader at Now");
    push_bare(&mut lines, "Enter   expand mission / focus agent");
    push_bare(&mut lines, "[ ]     switch open tabs while navigation is focused");
    push_bare(&mut lines, "x       close the active view; work keeps running");
    push_bare(&mut lines, "t       show overflowed tabs; tab × closes that view");
    push_bare(&mut lines, "");
    push_bare(&mut lines, "Pi ACP commands:");
    push_bare(&mut lines, "/neta-providers [id]  list or switch provider");
    push_bare(&mut lines, "/neta-model [id]      list or switch model");
    push_bare(&mut lines, "/neta-reset           reset and reattach this conversation");
    push_bare(&mut lines, "/neta-history         load the previous history page");
    push_bare(&mut lines, "/neta-copy            copy the latest remote agent response");
    push_bare(&mut lines, "");
    push_bare(&mut lines, "Pi receives Ctrl+C, arrows, Alt/Ctrl keys, paste, and mouse.");
    push_bare(&mut lines, "↑↓ PgUp/PgDn scroll · Esc/F1 closes help.");
    assert(line_views(lines@) =~= help_lines());
    lines
}

/// The place where the export of diagnostics asks for a directory: in the middle of the screen.
pub open spec fn diagnostics_place(screen: Rect) -> Rect {
    let width = least(minus(screen.width, 2), 76);
    let height = least(minus(screen.height, 2), 14);
    rect(
        plus(screen.x, minus(screen.width, width) / 2),
        plus(screen.y, minus(screen.height, height) / 2),
        width,
        height,
    )
}

fn find_diagnostics_place(screen: Rect) -> (place: Rect)
    ensures
        place == diagnostics_place(screen),
{
    let width: u16 = smaller(difference(screen.width, 2), 76);
    let height: u16 = smaller(difference(screen.height, 2), 14);
    Rect::new(
        sum(screen.x, difference(screen.width, width) / 2),
        sum(screen.y, difference(screen.height, height) / 2),
        width,
        height,
    )
}

/// How many missions of a workspace are running.
pub fn count_running(missions: &Vec<Mission>, workspace: &Option<String>) -> (count: usize)
    ensures
        count == missions@.filter(running_in(optional(*workspace))).len(),
{
    let ghost wanted = running_in(optional(*workspace));
    let mut count: usize = 0;
    let mut at: usize = 0;
    proof {
        reveal(Seq::filter);
    }
    while at < missions.len()
        invariant
            at <= missions@.len(),
            wanted == running_in(optional(*workspace)),
            count == missions@.take(at as int).filter(wanted).len(),
            count <= at,
        decreases missions@.len() - at,
    {
        let ghost now = missions@.take(at + 1);
        assert(now.drop_last() =~= missions@.take(at as int));
        assert(now.last() == missions@[at as int]);
        proof {
            reveal(Seq::filter);
        }
        let here: bool = match workspace {
            Some(id) => same_text(id, &missions[at].workspace_id),
            None => false,
        };
        if here && same_text(&missions[at].state, "running") {
            count = count + 1;
        }
        at = at + 1;
    }
    assert(missions@.take(at as int) =~= missions@);
    count
}

/// How many missions of a workspace wait for a person.
pub fn count_waiting(missions: &Vec<Mission>, workspace: &Option<String>) -> (count: usize)
    ensures
        count == missions@.filter(waiting_in(optional(*workspace))).len(),
{
    let ghost wanted = waiting_in(optional(*workspace));
    let mut count: usize = 0;
    let mut at: usize = 0;
    proof {
        reveal(Seq::filter);
    }
    while at < missions.len()
        invariant
            at <= missions@.len(),
            wanted == waiting_in(optional(*workspace)),
            count == missions@.take(at as int).filter(wanted).len(),
            count <= at,
        decreases missions@.len() - at,
    {
        let ghost now = missions@.take(at + 1);
        assert(now.drop_last() =~= missions@.take(at as int));
        assert(now.last() == missions@[at as int]);
        proof {
            reveal(Seq::filter);
        }
        let here: bool = match workspace {
            Some(id) => same_text(id, &missions[at].workspace_id),
            None => false,
        };
        if here && needs_person(&missions[at].state) {
            count = count + 1;
        }
        at = at + 1;
    }
    assert(missions@.take(at as int) =~= missions@);
    count
}

impl App {
    /// The leader in the header.
    pub open spec fn header_leader(self) -> Seq<char> {
        match (self.snapshot, self.workspace()) {
            (Some(snapshot), Some(id)) => match find(snapshot.leaders@, leads(id)) {
                Some(leader) => "Jump to leader · "@ + leader.name@ + " · "@ + label_of(
                    leader.state@,
                ),
                None => "Open project"@,
            },
            _ => "Open project"@,
        }
    }

    /// The counts in the header: of the missions of the workspace that is shown.
    pub open spec fn header_counts(self) -> Seq<char> {
        match self.snapshot {
            Some(snapshot) => counts_line(
                snapshot.missions@.filter(running_in(self.workspace())).len(),
                snapshot.missions@.filter(waiting_in(self.workspace())).len(),
            ),
            None => counts_line(0, 0),
        }
    }

    /// The header as it is drawn.
    pub open spec fn header_drawn(self, area: Rect) -> Seq<PaintView> {
        let parts = seq![
            (" neta "@, (Look { fg: Some(GROUND), bg: Some(AMBER), bold: true })),
            ("  "@, Look::plain()),
            (
                header_workspace(self.snapshot, self.workspace()),
                (Look { fg: Some(TEXT), bg: None, bold: true }),
            ),
            ("  "@ + header_machine(self.snapshot) + " [M]  "@, Look::ink(MUTED)),
            (self.header_leader(), Look::ink(AMBER)),
            ("    "@ + self.header_counts(), Look::ink(MUTED)),
        ];
        seq![
            PaintView::Frame {
                area,
                sides: Sides::Bottom,
                caption: None,
                edge: Look::ink(RULE),
                ground: Look::ground(GROUND),
            },
            text_in(
                above_rule(area),
                seq![TextLineView { parts, look: Look::plain() }],
                Look::ground(GROUND),
            ),
        ]
    }

    fn write_header_leader(&self) -> (text: String)
        ensures
            text@ == self.header_leader(),
    {
        if let (Some(snapshot), Some(id)) = (&self.snapshot, &self.workspace_id) {
            if let Some(at) = find_leader(&snapshot.leaders, id) {
                let leader = &snapshot.leaders[at];
                return concat4(
                    "Jump to leader · ",
                    &leader.name,
                    " · ",
                    status_label(&leader.state),
                );
            }
        }
        "Open project".to_owned()
    }

    fn write_header_counts(&self) -> (text: String)
        ensures
            text@ == self.header_counts(),
    {
        match &self.snapshot {
            Some(snapshot) => write_counts(
                count_running(&snapshot.missions, &self.workspace_id),
                count_waiting(&snapshot.missions, &self.workspace_id),
            ),
            None => write_counts(0, 0),
        }
    }

    /// Draws the header.
    pub fn draw_header(&self, area: Rect) -> (paints: Vec<Paint>)
        ensures
            paint_views(paints@) == self.header_drawn(area),
    {
        let mut parts: Vec<(String, Look)> = Vec::new();
        parts.push(
            (" neta ".to_owned(), Look { fg: Some(GROUND), bg: Some(AMBER), bold: true }),
        );
        parts.push(("  ".to_owned(), Look::new_plain()));
        parts.push(
            (
                self.header_workspace_name().to_owned(),
                Look { fg: Some(TEXT), bg: None, bold: true },
            ),
        );
        parts.push((concat3("  ", self.header_machine_name(), " [M]  "), Look::new_ink(MUTED)));
        parts.push((self.write_header_leader(), Look::new_ink(AMBER)));
        parts.push((concat2("    ", &self.write_header_counts()), Look::new_ink(MUTED)));
        let ghost views = parts@.map_values(|part: (String, Look)| (part.0@, part.1));
        let mut lines: Vec<TextLine> = Vec::new();
        lines.push(TextLine { parts, look: Look::new_plain() });
        assert(line_views(lines@) =~= seq![TextLineView { parts: views, look: Look::plain() }]);
        let mut paints: Vec<Paint> = Vec::new();
        push_paint(
            &mut paints,
            Paint::Frame {
                area,
                sides: Sides::Bottom,
                caption: None,
                edge: Look::new_ink(RULE),
                ground: Look::new_ground(GROUND),
            },
        );
        push_paint(
            &mut paints,
            new_text(without_last_row(area), lines, Look::new_ground(GROUND)),
        );
        assert(views =~= seq![
            (" neta "@, (Look { fg: Some(GROUND), bg: Some(AMBER), bold: true })),
            ("  "@, Look::plain()),
            (
                header_workspace(self.snapshot, self.workspace()),
                (Look { fg: Some(TEXT), bg: None, bold: true }),
            ),
            ("  "@ + header_machine(self.snapshot) + " [M]  "@, Look::ink(MUTED)),
            (self.header_leader(), Look::ink(AMBER)),
            ("    "@ + self.header_counts(), Look::ink(MUTED)),
        ]);
        assert(paint_views(paints@) =~= self.header_drawn(area));
        paints
    }

    /// What has the keys, where it is a picker.
    pub open spec fn picker_status(self, compact: bool) -> Seq<char> {
        if self.host_picker {
            if self.add_host_form {
                " ADD MACHINE · input is captured"@
            } else if compact {
                " MACHINE PICKER · input captured"@
            } else {
                " MACHINE PICKER · input is captured"@
            }
        } else if self.picker_path_mode {
            if compact {
                " PROJECT PATH · input captured"@
            } else {
                " PROJECT PATH · input is captured"@
            }
        } else if compact {
            " WORKSPACE PICKER · input captured"@
        } else {
            " WORKSPACE PICKER · input is captured"@
        }
    }

    /// The first status line: the last error, else what has the keys.
    pub open spec fn status_line(self, width: u16) -> Seq<char> {
        let compact = width < 80;
        match self.error {
            Some(error) => clipped(error@, minus(width, 2) as nat),
            None => if self.picker {
                self.picker_status(compact)
            } else if self.help {
                " HELP OPEN · Esc closes help"@
            } else if self.fixed_preview is Some {
                if compact {
                    " FOLLOW-UP · Enter send · Esc cancel"@
                } else {
                    " FOLLOW-UP PREVIEW · Enter sends · Esc cancels"@
                }
            } else if self.diagnostics_export_path is Some {
                " DIAGNOSTICS EXPORT · path input is captured"@
            } else if self.diagnostics_exporting {
                " DIAGNOSTICS EXPORT · collecting machines in background"@
            } else if self.export_path is Some {
                if compact {
                    " ARCHIVE EXPORT · path input captured"@
                } else {
                    " ARCHIVE EXPORT · path input is captured"@
                }
            } else if self.tab_overflow_open {
                " TAB PICKER · ↑↓ select · Enter opens"@
            } else if self.reads_archive() {
                " ARCHIVE READ-ONLY · ↑↓ scroll"@
            } else if self.nav_focused {
                if compact {
                    " NAVIGATION · keys navigate"@
                } else {
                    " NAVIGATION FOCUSED · keys navigate spine"@
                }
            } else if self.offline() {
                " MACHINE OFFLINE · Pi input paused"@
            } else {
                " PI FOCUSED · keys go to Pi"@
            },
        }
    }

    /// The second status line: the keys that always work.
    pub open spec fn shortcuts(width: u16) -> Seq<char> {
        if width < 80 {
            " Ctrl+Space nav  Ctrl+Q quit"@
        } else {
            " Ctrl+Space navigation  Ctrl+K workspaces  F1 help  Ctrl+Q quit"@
        }
    }

    /// The status lines as they are drawn.
    pub open spec fn status_drawn(self, area: Rect, width: u16) -> PaintView {
        text_in(
            area,
            seq![
                whole(self.status_line(width), Look::ink(AMBER)),
                whole(App::shortcuts(width), Look::ink(MUTED)),
            ],
            Look::ground(GROUND),
        )
    }

    fn write_picker_status(&self, compact: bool) -> (line: &'static str)
        ensures
            line@ == self.picker_status(compact),
    {
        if self.host_picker {
            if self.add_host_form {
                " ADD MACHINE · input is captured"
            } else if compact {
                " MACHINE PICKER · input captured"
            } else {
                " MACHINE PICKER · input is captured"
            }
        } else if self.picker_path_mode {
            if compact {
                " PROJECT PATH · input captured"
            } else {
                " PROJECT PATH · input is captured"
            }
        } else if compact {
            " WORKSPACE PICKER · input captured"
        } else {
            " WORKSPACE PICKER · input is captured"
        }
    }

    fn write_status_line(&self, width: u16) -> (line: String)
        ensures
            line@ == self.status_line(width),
    {
        let compact: bool = width < 80;
        if let Some(error) = &self.error {
            return clip_label(error, difference(width, 2) as usize);
        }
        let line: &str = if self.picker {
            self.write_picker_status(compact)
        } else if self.help {
            " HELP OPEN · Esc closes help"
        } else if self.fixed_preview.is_some() {
            if compact {
                " FOLLOW-UP · Enter send · Esc cancel"
            } else {
                " FOLLOW-UP PREVIEW · Enter sends · Esc cancels"
            }
        } else if self.diagnostics_export_path.is_some() {
            " DIAGNOSTICS EXPORT · path input is captured"
        } else if self.diagnostics_exporting {
            " DIAGNOSTICS EXPORT · collecting machines in background"
        } else if self.export_path.is_some() {
            if compact {
                " ARCHIVE EXPORT · path input captured"
            } else {
                " ARCHIVE EXPORT · path input is captured"
            }
        } else if self.tab_overflow_open {
            " TAB PICKER · ↑↓ select · Enter opens"
        } else if self.is_read_only_archive() {
            " ARCHIVE READ-ONLY · ↑↓ scroll"
        } else if self.nav_focused {
            if compact {
                " NAVIGATION · keys navigate"
            } else {
                " NAVIGATION FOCUSED · keys navigate spine"
            }
        } else if self.selected_host_is_offline() {
            " MACHINE OFFLINE · Pi input paused"
        } else {
            " PI FOCUSED · keys go to Pi"
        };
        line.to_owned()
    }

    /// Draws the status lines.
    pub fn draw_status(&self, area: Rect, width: u16) -> (paint: Paint)
        ensures
            paint@ == self.status_drawn(area, width),
    {
        let shortcuts: &str = if width < 80 {
            " Ctrl+Space nav  Ctrl+Q quit"
        } else {
            " Ctrl+Space navigation  Ctrl+K workspaces  F1 help  Ctrl+Q quit"
        };
        let mut lines: Vec<TextLine> = Vec::new();
        push_line(&mut lines, self.write_status_line(width), Look::new_ink(AMBER));
        push_line(&mut lines, shortcuts.to_owned(), Look::new_ink(MUTED));
        assert(line_views(lines@) =~= seq![
            whole(self.status_line(width), Look::ink(AMBER)),
            whole(App::shortcuts(width), Look::ink(MUTED)),
        ]);
        new_text(area, lines, Look::new_ground(GROUND))
    }

    /// Whether an error tells of the export of an archive.
    pub open spec fn archive_message(self) -> Option<Seq<char>> {
        match self.error {
            Some(message) => if holds(message@, "archived session"@) || holds(
                message@,
                "archive export"@,
            ) {
                Some(message@)
            } else {
                None
            },
            None => None,
        }
    }

    /// What opens over a saved conversation: the question for a file, or news of the export.
    pub open spec fn export_popup_drawn(self, layout: ScreenLayout) -> Seq<PaintView> {
        match self.export_path {
            Some(path) => seq![PaintView::Clear { area: layout.export_popup }] + popup_drawn(
                layout.export_popup,
                None,
                seq![
                    whole(
                        " Export archived session · Enter saves · Esc cancels"@,
                        Look::ink(AMBER),
                    ),
                    whole(path@, Look::ink(TEXT)),
                ],
                Look::ground(GROUND),
            ),
            None => match self.archive_message() {
                Some(message) => seq![PaintView::Clear { area: layout.message_popup }]
                    + popup_drawn(
                    layout.message_popup,
                    None,
                    bare_lines(message),
                    Look::both(TEXT, GROUND),
                ),
                None => seq![],
            },
        }
    }

    /// The follow-up, where one is being written.
    pub open spec fn followup_popup_drawn(self, layout: ScreenLayout) -> Seq<PaintView> {
        match self.fixed_preview {
            Some(preview) => seq![PaintView::Clear { area: layout.followup_popup }] + popup_drawn(
                layout.followup_popup,
                None,
                followup_lines(preview),
                Look::plain(),
            ),
            None => seq![],
        }
    }

    /// A saved conversation as it is drawn.
    pub open spec fn transcript_drawn(self, layout: ScreenLayout) -> Seq<PaintView> {
        match self.saved_transcript {
            Some(saved) => seq![
                frame_around(
                    layout.pane,
                    Some(Caption::SavedOutput),
                    AMBER,
                    Look::ground(GROUND),
                ),
                PaintView::Text {
                    area: layout.pane.inside(),
                    lines: transcript_lines(saved),
                    ground: Look::ground(GROUND),
                    wrap: true,
                    scroll: self.saved_scroll,
                },
            ] + self.export_popup_drawn(layout) + self.followup_popup_drawn(layout),
            None => popup_drawn(
                layout.pane,
                Some(Caption::SavedOutput),
                bare_lines("Loading saved transcript · read-only"@),
                Look::both(MUTED, GROUND),
            ),
        }
    }

    fn draw_export_popup(&self, layout: &ScreenLayout) -> (paints: Vec<Paint>)
        ensures
            paint_views(paints@) == self.export_popup_drawn(*layout),
    {
        let mut paints: Vec<Paint> = Vec::new();
        match &self.export_path {
            Some(path) => {
                let mut lines: Vec<TextLine> = Vec::new();
                push_line(
                    &mut lines,
                    " Export archived session · Enter saves · Esc cancels".to_owned(),
                    Look::new_ink(AMBER),
                );
                push_line(&mut lines, path.clone(), Look::new_ink(TEXT));
                assert(line_views(lines@) =~= seq![
                    whole(
                        " Export archived session · Enter saves · Esc cancels"@,
                        Look::ink(AMBER),
                    ),
                    whole(path@, Look::ink(TEXT)),
                ]);
                push_paint(&mut paints, Paint::Clear { area: layout.export_popup });
                append_paints(
                    &mut paints,
                    draw_popup(layout.export_popup, None, lines, Look::new_ground(GROUND)),
                );
            },
            None => {
                if let Some(message) = &self.error {
                    if contains(message, "archived session") || contains(
                        message,
                        "archive export",
                    ) {
                        push_paint(&mut paints, Paint::Clear { area: layout.message_popup });
                        append_paints(
                            &mut paints,
                            draw_popup(
                                layout.message_popup,
                                None,
                                to_bare_lines(message),
                                Look::new_both(TEXT, GROUND),
                            ),
                        );
                    }
                }
            },
        }
        assert(paint_views(paints@) =~= self.export_popup_drawn(*layout));
        paints
    }

    fn draw_followup_popup(&self, layout: &ScreenLayout) -> (paints: Vec<Paint>)
        ensures
            paint_views(paints@) == self.followup_popup_drawn(*layout),
    {
        let mut paints: Vec<Paint> = Vec::new();
        if let Some(preview) = &self.fixed_preview {
            push_paint(&mut paints, Paint::Clear { area: layout.followup_popup });
            append_paints(
                &mut paints,
                draw_popup(
                    layout.followup_popup,
                    None,
                    write_followup_lines(preview),
                    Look::new_plain(),
                ),
            );
        }
        assert(paint_views(paints@) =~= self.followup_popup_drawn(*layout));
        paints
    }

    /// Draws a saved conversation.
    pub fn draw_saved_transcript(&self, layout: &ScreenLayout) -> (paints: Vec<Paint>)
        ensures
            paint_views(paints@) == self.transcript_drawn(*layout),
    {
        let saved = match &self.saved_transcript {
            Some(saved) => saved,
            None => {
                return draw_popup(
                    layout.pane,
                    Some(Caption::SavedOutput),
                    to_bare_lines("Loading saved transcript · read-only"),
                    Look::new_both(MUTED, GROUND),
                );
            },
        };
        let mut paints: Vec<Paint> = Vec::new();
        push_paint(
            &mut paints,
            new_frame(
                layout.pane,
                Some(Caption::SavedOutput),
                AMBER,
                Look::new_ground(GROUND),
            ),
        );
        push_paint(
            &mut paints,
            Paint::Text {
                area: layout.pane.inner(),
                lines: write_transcript(saved),
                ground: Look::new_ground(GROUND),
                wrap: true,
                scroll: self.saved_scroll,
            },
        );
        append_paints(&mut paints, self.draw_export_popup(layout));
        append_paints(&mut paints, self.draw_followup_popup(layout));
        assert(paint_views(paints@) =~= self.transcript_drawn(*layout));
        paints
    }

    /// Whether the cursor in the list of machines stands on one that can be edited.
    pub open spec fn points_at_saved_host(self) -> bool {
        self.picker_cursor < self.hosts@.len() && self.hosts@[self.picker_cursor as int].id@
            != "local"@
    }

    fn is_at_saved_host(&self) -> (yes: bool)
        ensures
            yes == self.points_at_saved_host(),
    {
        self.picker_cursor < self.hosts.len() && !same_text(
            self.hosts[self.picker_cursor].id.as_str(),
            "local",
        )
    }

    fn push_form(&self, lines: &mut Vec<TextLine>)
        ensures
            line_views(final(lines)@) == line_views(old(lines)@) + form_lines(
                *self,
                MACHINE_FORM_FIELDS as int,
            ),
    {
        let ghost head = line_views(lines@);
        let saved: bool = self.is_at_saved_host();
        let mut field: usize = 0;
        assert(head + form_lines(*self, 0) =~= head);
        while field < MACHINE_FORM_FIELDS
            invariant
                field <= MACHINE_FORM_FIELDS,
                saved == self.points_at_saved_host(),
                line_views(lines@) == head + form_lines(*self, field as int),
            decreases MACHINE_FORM_FIELDS - field,
        {
            let ghost before = line_views(lines@);
            let chosen: bool = field == self.add_host_field;
            let start = concat4(to_pointer(chosen), " ", to_field_label(field), ": ");
            push_line(
                lines,
                concat2(&start, self.add_host_fields[field].as_str()),
                to_choice_look(chosen),
            );
            if saved {
                push_line(lines, "e edit · d remove".to_owned(), Look::new_ink(MUTED));
            }
            assert(line_views(lines@) =~= head + form_lines(*self, field + 1));
            field = field + 1;
        }
    }

    fn push_workspaces(&self, lines: &mut Vec<TextLine>)
        ensures
            line_views(final(lines)@) == line_views(old(lines)@) + workspaces_lines(
                self.offers(),
                self.picker_cursor,
            ),
    {
        let ghost head = line_views(lines@);
        let ghost offers = self.offers();
        let places = self.filtered_workspaces();
        let mut at: usize = 0;
        assert(head + workspaces_lines(offers.take(0), self.picker_cursor) =~= head);
        while at < places.len()
            invariant
                at <= places@.len() == offers.len(),
                offers == self.offers(),
                forall|i: int|
                    0 <= i < places@.len() ==> (#[trigger] places@[i])
                        < self.workspace_choices@.len() && self.workspace_choices@[places@[i] as int]
                        == offers[i],
                line_views(lines@) == head + workspaces_lines(
                    offers.take(at as int),
                    self.picker_cursor,
                ),
            decreases places@.len() - at,
        {
            let ghost now = offers.take(at + 1);
            assert(now.drop_last() =~= offers.take(at as int));
            assert(now.last() == offers[at as int]);
            let place: usize = places[at];
            push_workspace(lines, &self.workspace_choices[place], at == self.picker_cursor);
            assert(line_views(lines@) =~= head + workspaces_lines(now, self.picker_cursor));
            at = at + 1;
        }
        assert(offers.take(at as int) =~= offers);
    }

    /// What the picker asks for.
    pub open spec fn picker_hint(self) -> Seq<char> {
        if self.host_picker {
            "Choose a machine · Enter connects"@
        } else if self.picker_path_mode {
            "Type a project path and press Enter"@
        } else {
            "Find a workspace · Enter switches · Ctrl+O opens a project"@
        }
    }

    /// What can be chosen in the picker.
    pub open spec fn picker_choices(self) -> Seq<TextLineView> {
        if self.host_picker {
            if self.add_host_form {
                seq![
                    whole(
                        if self.editing_host is Some {
                            "Edit SSH machine · absolute remote paths · Tab next · Enter saves"@
                        } else {
                            "Add SSH machine · absolute remote paths · Tab next · Enter saves"@
                        },
                        Look::ink(MUTED),
                    ),
                ] + form_lines(self, MACHINE_FORM_FIELDS as int)
            } else {
                host_lines(self.hosts@, self.picker_cursor)
            }
        } else if self.picker_path_mode {
            seq![]
        } else {
            workspaces_lines(self.offers(), self.picker_cursor)
        }
    }

    /// The lines of the picker: what it asks for, what was typed, what can be chosen, and the last
    /// error.
    pub open spec fn picker_lines(self) -> Seq<TextLineView> {
        seq![
            whole(self.picker_hint(), Look::ink(MUTED)),
            whole("> "@ + self.picker_input@, Look::ink(TEXT)),
            bare(""@),
        ] + self.picker_choices() + match self.error {
            Some(error) => seq![whole(error@, Look::ink(AMBER))],
            None => seq![],
        }
    }

    /// The question whether a machine is to be forgotten.
    pub open spec fn confirmation_drawn(self, layout: ScreenLayout) -> Seq<PaintView> {
        match self.remove_host_confirmation {
            Some(host) if self.host_picker && self.add_host_form => seq![
                PaintView::Clear { area: layout.confirmation },
            ] + popup_drawn(
                layout.confirmation,
                Some(Caption::RemoveMachine),
                bare_lines(
                    "Forget "@ + host.label@
                        + "?\n\nThis removes this saved SSH connection from Neta only. Remote files and the remote Neta service keep running.\n\nEnter forgets · Esc cancels"@,
                ),
                Look::both(TEXT, GROUND),
            ),
            _ => seq![],
        }
    }

    /// The picker as it is drawn.
    pub open spec fn picker_drawn(self, layout: ScreenLayout) -> Seq<PaintView> {
        seq![PaintView::Clear { area: layout.picker }] + self.confirmation_drawn(layout)
            + popup_drawn(
            layout.picker,
            Some(
                if self.host_picker {
                    Caption::Machines
                } else {
                    Caption::Workspaces
                },
            ),
            self.picker_lines(),
            Look::ground(GROUND),
        )
    }

    fn push_choices(&self, lines: &mut Vec<TextLine>)
        ensures
            line_views(final(lines)@) == line_views(old(lines)@) + self.picker_choices(),
    {
        let ghost head = line_views(lines@);
        if self.host_picker {
            if self.add_host_form {
                let words: &str = if self.editing_host.is_some() {
                    "Edit SSH machine · absolute remote paths · Tab next · Enter saves"
                } else {
                    "Add SSH machine · absolute remote paths · Tab next · Enter saves"
                };
                push_line(lines, words.to_owned(), Look::new_ink(MUTED));
                self.push_form(lines);
            } else {
                push_hosts(lines, &self.hosts, self.picker_cursor);
            }
        } else if !self.picker_path_mode {
            self.push_workspaces(lines);
        }
        assert(line_views(lines@) =~= head + self.picker_choices());
    }

    fn write_picker(&self) -> (lines: Vec<TextLine>)
        ensures
            line_views(lines@) == self.picker_lines(),
    {
        let hint: &str = if self.host_picker {
            "Choose a machine · Enter connects"
        } else if self.picker_path_mode {
            "Type a project path and press Enter"
        } else {
            "Find a workspace · Enter switches · Ctrl+O opens a project"
        };
        let mut lines: Vec<TextLine> = Vec::new();
        push_line(&mut lines, hint.to_owned(), Look::new_ink(MUTED));
        push_line(&mut lines, concat2("> ", &self.picker_input), Look::new_ink(TEXT));
        push_line(&mut lines, "".to_owned(), Look::new_plain());
        self.push_choices(&mut lines);
        if let Some(error) = &self.error {
            push_line(&mut lines, error.clone(), Look::new_ink(AMBER));
        }
        assert(line_views(lines@) =~= self.picker_lines());
        lines
    }

    fn draw_confirmation(&self, layout: &ScreenLayout) -> (paints: Vec<Paint>)
        ensures
            paint_views(paints@) == self.confirmation_drawn(*layout),
    {
        let mut paints: Vec<Paint> = Vec::new();
        if self.host_picker && self.add_host_form {
            if let Some(host) = &self.remove_host_confirmation {
                let text = concat3(
                    "Forget ",
                    &host.label,
                    "?\n\nThis removes this saved SSH connection from Neta only. Remote files and the remote Neta service keep running.\n\nEnter forgets · Esc cancels",
                );
                push_paint(&mut paints, Paint::Clear { area: layout.confirmation });
                append_paints(
                    &mut paints,
                    draw_popup(
                        layout.confirmation,
                        Some(Caption::RemoveMachine),
                        to_bare_lines(&text),
                        Look::new_both(TEXT, GROUND),
                    ),
                );
            }
        }
        assert(paint_views(paints@) =~= self.confirmation_drawn(*layout));
        paints
    }

    /// Draws the picker.
    pub fn draw_picker(&self, layout: &ScreenLayout) -> (paints: Vec<Paint>)
        ensures
            paint_views(paints@) == self.picker_drawn(*layout),
    {
        let caption = if self.host_picker {
            Caption::Machines
        } else {
            Caption::Workspaces
        };
        let mut paints: Vec<Paint> = Vec::new();
        push_paint(&mut paints, Paint::Clear { area: layout.picker });
        append_paints(&mut paints, self.draw_confirmation(layout));
        append_paints(
            &mut paints,
            draw_popup(
                layout.picker,
                Some(caption),
                self.write_picker(),
                Look::new_ground(GROUND),
            ),
        );
        assert(paint_views(paints@) =~= self.picker_drawn(*layout));
        paints
    }

    /// The help as it is drawn.
    pub open spec fn help_drawn(self, layout: ScreenLayout) -> Seq<PaintView> {
        let caption = if self.help_scroll == 0 {
            Caption::Help
        } else {
            Caption::HelpScrolled
        };
        seq![
            PaintView::Clear { area: layout.help },
            frame_around(layout.help, Some(caption), AMBER, Look::both(TEXT, GROUND)),
            PaintView::Text {
                area: layout.help.inside(),
                lines: help_lines(),
                ground: Look::both(TEXT, GROUND),
                wrap: true,
                scroll: self.help_scroll,
            },
        ]
    }

    /// Draws the help.
    pub fn draw_help(&self, layout: &ScreenLayout) -> (paints: Vec<Paint>)
        ensures
            paint_views(paints@) == self.help_drawn(*layout),
    {
        let caption = if self.help_scroll == 0 {
            Caption::Help
        } else {
            Caption::HelpScrolled
        };
        let ground = Look::new_both(TEXT, GROUND);
        let mut paints: Vec<Paint> = Vec::new();
        push_paint(&mut paints, Paint::Clear { area: layout.help });
        push_paint(&mut paints, new_frame(layout.help, Some(caption), AMBER, ground));
        push_paint(
            &mut paints,
            Paint::Text {
                area: layout.help.inner(),
                lines: write_help(),
                ground,
                wrap: true,
                scroll: self.help_scroll,
            },
        );
        assert(paint_views(paints@) =~= self.help_drawn(*layout));
        paints
    }

    /// The question for the directory that diagnostics are exported to, as it is drawn. Of a long
    /// path the end is shown.
    pub open spec fn diagnostics_drawn(self, screen: Rect) -> Seq<PaintView> {
        let area = diagnostics_place(screen);
        let width = least(minus(screen.width, 2), 76);
        let path = match self.diagnostics_export_path {
            Some(path) => path@,
            None => seq![],
        };
        seq![
            PaintView::Clear { area },
            frame_around(area, Some(Caption::Diagnostics), AMBER, Look::both(TEXT, GROUND)),
            PaintView::Text {
                area: area.inside(),
                lines: bare_lines(
                    "Collects conversations and tool output from connected machines.\nStored authentication files are excluded.\n\nDestination:\n"@
                        + tail_of(path, minus(width, 6) as nat)
                        + "\n\nEnter exports · Esc cancels"@,
                ),
                ground: Look::both(TEXT, GROUND),
                wrap: true,
                scroll: 0,
            },
        ]
    }

    /// Draws the question for the directory that diagnostics are exported to.
    pub fn draw_diagnostics_export(&self, screen: Rect) -> (paints: Vec<Paint>)
        ensures
            paint_views(paints@) == self.diagnostics_drawn(screen),
    {
        let area = find_diagnostics_place(screen);
        let width: u16 = smaller(difference(screen.width, 2), 76);
        let room: usize = difference(width, 6) as usize;
        let path: String = match &self.diagnostics_export_path {
            Some(path) => tail_text(path, room),
            None => {
                let none = String::new();
                assert(none@ =~= seq![]);
                tail_text(&none, room)
            },
        };
        let text = concat3(
            "Collects conversations and tool output from connected machines.\nStored authentication files are excluded.\n\nDestination:\n",
            &path,
            "\n\nEnter exports · Esc cancels",
        );
        let ground = Look::new_both(TEXT, GROUND);
        let mut paints: Vec<Paint> = Vec::new();
        push_paint(&mut paints, Paint::Clear { area });
        push_paint(&mut paints, new_frame(area, Some(Caption::Diagnostics), AMBER, ground));
        push_paint(
            &mut paints,
            Paint::Text {
                area: area.inner(),
                lines: to_bare_lines(&text),
                ground,
                wrap: true,
                scroll: 0,
            },
        );
        assert(paint_views(paints@) =~= self.diagnostics_drawn(screen));
        paints
    }
}

} // verus!

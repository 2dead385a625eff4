//! What the screen shows, as text and geometry: a function of the state. The
//! widgets that put it there are not here.
use crate::app::{tally, App, Tally};
use crate::decimal::{count_of, decimal};
use crate::job::Job;
use crate::state::{
    named, names_of, BuildReport, DowngradeChoice, Filter, Hit, InputPurpose, MessageKind, Row,
    RowStatus, SearchResult,
};
use crate::text::{
    cat, cat3, cat4, cat5, chars_of, first_named, join, joined, lines, lines_of, sanitize, sanitized,
    texts,
};
use vstd::prelude::*;
use vstd::utf8::encode_utf8;

verus! {

/// A color, by what it is for.
#[derive(Clone, Copy, PartialEq, Eq, Debug, Structural)]
pub enum Tone {
    /// The terminal's own foreground.
    Plain,
    Green,
    Yellow,
    Red,
    Cyan,
    Gray,
    DarkGray,
}

/// A run of text in one style.
#[derive(Debug, PartialEq, Eq)]
pub struct Piece {
    pub text: String,
    pub tone: Tone,
    pub bold: bool,
}

/// A line, piece by piece.
pub type TextLine = Vec<Piece>;

/// A framed panel: what stands in its frame, and its lines.
pub struct Panel {
    pub title: String,
    pub lines: Vec<TextLine>,
}

/// A run of text in one style, as its text.
pub struct PieceView {
    pub text: Seq<char>,
    pub tone: Tone,
    pub bold: bool,
}

/// The view of a line.
pub open spec fn line_view(line: Seq<Piece>) -> Seq<PieceView> {
    Seq::new(
        line.len(),
        |i: int| PieceView { text: line[i].text@, tone: line[i].tone, bold: line[i].bold },
    )
}

/// The view of lines.
pub open spec fn lines_view(lines: Seq<Vec<Piece>>) -> Seq<Seq<PieceView>> {
    Seq::new(lines.len(), |i: int| line_view(lines[i]@))
}

/// A text with spaces after it, up to a width in characters.
pub open spec fn padded(text: Seq<char>, width: int) -> Seq<char> {
    if text.len() >= width {
        text
    } else {
        text + Seq::new((width - text.len()) as nat, |i: int| ' ')
    }
}

/// A text with spaces after it, up to a width in characters.
fn pad(text: &str, width: usize) -> (r: String)
    ensures
        r@ == padded(text@, width as int),
{
    let n = chars_of(text).len();
    let mut out = text.to_owned();
    let mut i: usize = n;
    assert(text@ + Seq::new(0, |i: int| ' ') =~= text@);
    while i < width
        invariant
            n == text@.len(),
            n <= i,
            i <= width || i == n,
            out@ == text@ + Seq::new((i - n) as nat, |i: int| ' '),
        decreases width - i,
    {
        out.push(' ');
        assert(out@ =~= text@ + Seq::new((i + 1 - n) as nat, |i: int| ' '));
        i = i + 1;
    }
    assert(out@ =~= padded(text@, width as int));
    out
}

/// A key and its value: the key in bold, ten characters wide.
pub open spec fn kv_view(key: Seq<char>, value: Seq<char>, tone: Tone) -> Seq<PieceView> {
    seq![
        PieceView { text: padded(key, 10), tone: Tone::Plain, bold: true },
        PieceView { text: value, tone, bold: false },
    ]
}

/// A key and its value: the key in bold, ten characters wide.
fn kv(key: &str, value: &str, tone: Tone) -> (r: TextLine)
    ensures
        line_view(r@) == kv_view(key@, value@, tone),
{
    let line = vec![
        Piece { text: pad(key, 10), tone: Tone::Plain, bold: true },
        Piece { text: value.to_owned(), tone, bold: false },
    ];
    assert(line_view(line@) =~= kv_view(key@, value@, tone));
    line
}

/// What is known of the newest version, in the details of an entry.
pub open spec fn latest_view(row: Row) -> Seq<PieceView> {
    match row.status {
        RowStatus::UpToDate => kv_view("Latest"@, row.version@, Tone::Green),
        RowStatus::Outdated(latest) => kv_view("Latest"@, latest@, Tone::Yellow),
        RowStatus::Unknown => kv_view("Latest"@, "not checked (press r)"@, Tone::Gray),
    }
}

/// The selected crate's full managed entry. Every manifest fact speaks: locked and
/// pinned say yes or no, because in a details panel a missing line reads as
/// unknown. The other prefixes appear only when a foreign copy exists.
pub open spec fn details_of(row: Row) -> Seq<Seq<PieceView>> {
    seq![
        kv_view("Crate"@, row.name@, Tone::Plain),
        kv_view("Installed"@, row.version@, Tone::Plain),
        latest_view(row),
        kv_view("Binaries"@, joined(texts(row.bins@), ", "@), Tone::Plain),
        kv_view(
            "Locked"@,
            if row.locked {
                "yes (--locked, reused on update)"@
            } else {
                "no"@
            },
            Tone::Plain,
        ),
        if row.pinned {
            kv_view("Pinned"@, "yes — held at this version; p to unpin"@, Tone::Yellow)
        } else {
            kv_view("Pinned"@, "no"@, Tone::Plain)
        },
    ] + Seq::new(
        row.also@.len(),
        |i: int|
            kv_view(
                "Also in"@,
                sanitized(row.also@[i].prefix@ + " @"@ + row.also@[i].version@),
                Tone::Gray,
            ),
    )
}

/// The selected crate's full managed entry, as lines.
pub fn detail_lines(row: &Row) -> (r: Vec<TextLine>)
    ensures
        lines_view(r@) == details_of(*row),
{
    let latest = match &row.status {
        RowStatus::UpToDate => kv("Latest", row.version.as_str(), Tone::Green),
        RowStatus::Outdated(latest) => kv("Latest", latest.as_str(), Tone::Yellow),
        RowStatus::Unknown => kv("Latest", "not checked (press r)", Tone::Gray),
    };
    let locked = if row.locked {
        kv("Locked", "yes (--locked, reused on update)", Tone::Plain)
    } else {
        kv("Locked", "no", Tone::Plain)
    };
    let pinned = if row.pinned {
        kv("Pinned", "yes — held at this version; p to unpin", Tone::Yellow)
    } else {
        kv("Pinned", "no", Tone::Plain)
    };
    let ghost all = details_of(*row);
    let mut out: Vec<TextLine> = Vec::new();
    out.push(kv("Crate", row.name.as_str(), Tone::Plain));
    out.push(kv("Installed", row.version.as_str(), Tone::Plain));
    out.push(latest);
    out.push(kv("Binaries", join(&row.bins, ", ").as_str(), Tone::Plain));
    out.push(locked);
    out.push(pinned);
    assert(lines_view(out@) =~= all.take(6));
    let mut i: usize = 0;
    while i < row.also.len()
        invariant
            i <= row.also.len(),
            all == details_of(*row),
            lines_view(out@) == all.take(6 + i),
        decreases row.also.len() - i,
    {
        let other = &row.also[i];
        let ghost was = lines_view(out@);
        out.push(
            kv(
                "Also in",
                sanitize(
                    cat3(other.prefix.as_str(), " @", other.version.as_str()).as_str(),
                ).as_str(),
                Tone::Gray,
            ),
        );
        assert(lines_view(out@) =~= was.push(all[6 + i]));
        assert(all.take(7 + i) =~= all.take(6 + i).push(all[6 + i]));
        i = i + 1;
    }
    assert(all.take(6 + i) =~= all);
    out
}

/// The lesser of two numbers.
pub open spec fn at_most(n: nat, bound: nat) -> nat {
    if n <= bound {
        n
    } else {
        bound
    }
}

/// The details panel's height at rest: an open offer's versions and its note, or
/// the six fixed lines of an entry and one per foreign copy, at most two; and the
/// borders.
pub open spec fn resting_height(app: App) -> nat {
    match app.downgrade_choice {
        Some(choice) => at_most(choice.versions@.len(), 9) + (if choice.older > 0 {
            1nat
        } else {
            0
        }) + 2,
        None => 8 + match app.chosen() {
            Some(row) => at_most(row.also@.len(), 2),
            None => 0,
        },
    }
}

/// The details panel's height for what it must show. A fixed height would silently
/// clip a foreign copy, which is exactly the state the panel exists to report; and
/// keys that work on invisible lines are worse than no keys.
pub fn resting_details_height(app: &App) -> (r: u16)
    ensures
        r == resting_height(*app),
{
    match &app.downgrade_choice {
        Some(choice) => {
            let shown: u16 = if choice.versions.len() < 9 {
                choice.versions.len() as u16
            } else {
                9
            };
            let note: u16 = if choice.older > 0 {
                1
            } else {
                0
            };
            shown + note + 2
        },
        None => {
            let also: u16 = match app.selected_row() {
                Some(row) => if row.also.len() < 2 {
                    row.also.len() as u16
                } else {
                    2
                },
                None => 0,
            };
            8 + also
        },
    }
}

/// The panel has room for every line of an entry with at most two foreign copies,
/// inside its borders.
pub proof fn law_the_panel_fits_the_entry(app: App, row: Row)
    requires
        app.downgrade_choice is None,
        app.chosen() == Some(row),
        row.also@.len() <= 2,
    ensures
        resting_height(app) == details_of(row).len() + 2,
{
}

/// The panel has room for every version that a digit can pick, and for the note
/// about the others, inside its borders.
pub proof fn law_the_panel_fits_the_offer(app: App, choice: DowngradeChoice)
    requires
        app.downgrade_choice == Some(choice),
        choice.versions@.len() <= 9,
    ensures
        resting_height(app) == offer_lines(choice).len() + 2,
{
}

/// The details panel's height: a pinned report gets more rows than the resting
/// pane, bounded by the terminal.
pub fn details_height(app: &App, screen_height: u16) -> (r: u16)
    ensures
        r == if app.build_report is Some {
            let free = if screen_height >= 11 {
                screen_height - 11
            } else {
                0
            };
            if free < 9 {
                9
            } else if free > 16 {
                16
            } else {
                free
            }
        } else {
            resting_height(*app) as int
        },
{
    if app.build_report.is_some() {
        let free: u16 = if screen_height >= 11 {
            screen_height - 11
        } else {
            0
        };
        if free < 9 {
            9
        } else if free > 16 {
            16
        } else {
            free
        }
    } else {
        resting_details_height(app)
    }
}

/// The titles of the tabs, with what each view counts.
pub open spec fn tab_texts(rows: Seq<Row>) -> Seq<Seq<char>> {
    seq![
        " Packages ("@ + decimal(rows.len()) + ") "@,
        " Updates ("@ + decimal(tally(Tally::Updates, rows)) + ") "@,
        " Pinned ("@ + decimal(tally(Tally::Pinned, rows)) + ") "@,
    ]
}

/// The titles of the tabs, with what each view counts.
pub fn tab_titles(app: &App) -> (r: Vec<String>)
    ensures
        texts(r@) == tab_texts(app.rows@),
{
    let titles = vec![
        cat3(" Packages (", count_of(app.total()).as_str(), ") "),
        cat3(" Updates (", count_of(app.updates_available()).as_str(), ") "),
        cat3(" Pinned (", count_of(app.pinned_count()).as_str(), ") "),
    ];
    assert(texts(titles@) =~= tab_texts(app.rows@));
    titles
}

/// What stands in the frame of the tabs.
pub fn header_title(app: &App) -> (r: String)
    ensures
        r@ == " cargo-lbin — "@ + app.prefix@ + " "@,
{
    cat3(" cargo-lbin — ", app.prefix.as_str(), " ")
}

/// A row's status as the list shows it. Unknown is gray: the one status that must
/// never be missed must not vanish into the selected row's background.
pub fn status_cell(status: &RowStatus) -> (r: Piece)
    ensures
        !r.bold,
        match *status {
            RowStatus::UpToDate => r.text@ == "✓ up to date"@ && r.tone == Tone::Green,
            RowStatus::Outdated(latest) => r.text@ == "↑ "@ + latest@ && r.tone == Tone::Yellow,
            RowStatus::Unknown => r.text@ == "? not checked"@ && r.tone == Tone::Gray,
        },
{
    match status {
        RowStatus::UpToDate => Piece {
            text: "✓ up to date".to_owned(),
            tone: Tone::Green,
            bold: false,
        },
        RowStatus::Outdated(latest) => Piece {
            text: cat("↑ ", latest.as_str()),
            tone: Tone::Yellow,
            bold: false,
        },
        RowStatus::Unknown => Piece {
            text: "? not checked".to_owned(),
            tone: Tone::Gray,
            bold: false,
        },
    }
}

/// A row's name as the list shows it, with its marks; `also` is the description of
/// the other prefixes that carry it.
pub open spec fn list_name_of(row: Row, also: Seq<char>) -> Seq<char> {
    row.name@ + (if row.locked {
        " [locked]"@
    } else {
        Seq::empty()
    }) + (if row.pinned {
        " [pinned]"@
    } else {
        Seq::empty()
    }) + (if row.also@.len() > 0 {
        also
    } else {
        Seq::empty()
    })
}

/// A row's name as the list shows it, with its marks.
pub fn list_name(row: &Row, also: &str) -> (r: String)
    ensures
        r@ == list_name_of(*row, also@),
{
    let none = String::new();
    let locked = if row.locked {
        " [locked]".to_owned()
    } else {
        String::new()
    };
    let pinned = if row.pinned {
        " [pinned]".to_owned()
    } else {
        String::new()
    };
    let elsewhere = if row.also.len() > 0 {
        also
    } else {
        none.as_str()
    };
    cat4(row.name.as_str(), locked.as_str(), pinned.as_str(), elsewhere)
}

/// What an empty list says.
pub fn empty_note(filter: Filter) -> (r: &'static str)
    ensures
        r@ == match filter {
            Filter::All => "nothing installed under this prefix — press i to install"@,
            Filter::Updates => "no unpinned updates known — press r to check crates.io"@,
            Filter::Pinned => "no pinned crates — p in Packages pins the selected crate"@,
        },
{
    match filter {
        Filter::All => "nothing installed under this prefix — press i to install",
        Filter::Updates => "no unpinned updates known — press r to check crates.io",
        Filter::Pinned => "no pinned crates — p in Packages pins the selected crate",
    }
}

/// A numbered line's number.
pub open spec fn number_piece(i: int) -> PieceView {
    PieceView {
        text: "["@ + decimal((i + 1) as nat) + "] "@,
        tone: Tone::Plain,
        bold: true,
    }
}

fn number(i: usize) -> (r: Piece)
    requires
        i < usize::MAX,
    ensures
        (PieceView { text: r.text@, tone: r.tone, bold: r.bold }) == number_piece(i as int),
{
    Piece { text: cat3("[", count_of(i + 1).as_str(), "] "), tone: Tone::Plain, bold: true }
}

/// The lines of an offer: a version each, numbered, and a note about the others.
pub open spec fn offer_lines(choice: DowngradeChoice) -> Seq<Seq<PieceView>> {
    let versions = Seq::new(
        choice.versions@.len(),
        |i: int|
            seq![
                number_piece(i),
                PieceView { text: choice.versions@[i]@, tone: Tone::Plain, bold: false },
            ],
    );
    if choice.older > 0 {
        versions.push(
            seq![
                PieceView {
                    text: "and "@ + decimal(choice.older as nat) + " older — install "@
                        + choice.name@ + "@VERSION for one of those"@,
                    tone: Tone::Gray,
                    bold: false,
                },
            ],
        )
    } else {
        versions
    }
}

fn offer_panel(choice: &DowngradeChoice) -> (r: Panel)
    ensures
        lines_view(r.lines@) == offer_lines(*choice),
        r.title@ == " Downgrade "@ + choice.name@ + " from "@ + choice.current@
            + " (digit installs, Esc dismisses) "@,
{
    let ghost all = Seq::new(
        choice.versions@.len(),
        |i: int|
            seq![
                number_piece(i),
                PieceView { text: choice.versions@[i]@, tone: Tone::Plain, bold: false },
            ],
    );
    let mut out: Vec<TextLine> = Vec::new();
    let mut i: usize = 0;
    assert(lines_view(out@) =~= all.take(0));
    while i < choice.versions.len()
        invariant
            i <= choice.versions.len(),
            all == Seq::new(
                choice.versions@.len(),
                |i: int|
                    seq![
                        number_piece(i),
                        PieceView { text: choice.versions@[i]@, tone: Tone::Plain, bold: false },
                    ],
            ),
            lines_view(out@) == all.take(i as int),
        decreases choice.versions.len() - i,
    {
        let ghost was = lines_view(out@);
        let line = vec![
            number(i),
            Piece {
                text: choice.versions[i].as_str().to_owned(),
                tone: Tone::Plain,
                bold: false,
            },
        ];
        assert(line_view(line@) =~= all[i as int]);
        out.push(line);
        assert(lines_view(out@) =~= was.push(all[i as int]));
        assert(all.take(i + 1) =~= all.take(i as int).push(all[i as int]));
        i = i + 1;
    }
    assert(all.take(i as int) =~= all);
    if choice.older > 0 {
        let ghost was = lines_view(out@);
        let note = vec![
            Piece {
                text: cat5(
                    "and ",
                    count_of(choice.older).as_str(),
                    " older — install ",
                    choice.name.as_str(),
                    "@VERSION for one of those",
                ),
                tone: Tone::Gray,
                bold: false,
            },
        ];
        let ghost last = line_view(note@);
        out.push(note);
        assert(lines_view(out@) =~= was.push(last));
        assert(last =~= offer_lines(*choice).last());
    }
    assert(lines_view(out@) =~= offer_lines(*choice));
    Panel {
        title: cat5(
            " Downgrade ",
            choice.name.as_str(),
            " from ",
            choice.current.as_str(),
            " (digit installs, Esc dismisses) ",
        ),
        lines: out,
    }
}

/// The widest name among the hits, in bytes.
pub open spec fn name_width(hits: Seq<Hit>) -> int
    decreases hits.len(),
{
    if hits.len() == 0 {
        0
    } else {
        let before = name_width(hits.drop_last());
        let width = encode_utf8(hits.last().name@).len() as usize as int;
        if width > before {
            width
        } else {
            before
        }
    }
}

/// A hit's line: numbered, its name padded to the widest, its version, the
/// installed version where there is one, and the description.
pub open spec fn hit_line(found: SearchResult, i: int) -> Seq<PieceView> {
    let hit = found.hits@[i];
    let head = seq![
        number_piece(i),
        PieceView {
            text: padded(hit.name@, name_width(found.hits@)) + "  "@ + hit.version@ + "  "@,
            tone: Tone::Plain,
            bold: false,
        },
    ];
    let marked = match first_named(names_of(found.installed@), hit.name@) {
        Some(k) => head.push(
            PieceView {
                text: "[installed "@ + found.installed@[k].1@ + "]  "@,
                tone: Tone::Green,
                bold: false,
            },
        ),
        None => head,
    };
    marked.push(PieceView { text: hit.description@, tone: Tone::Gray, bold: false })
}

/// The lines of a search's hits.
pub open spec fn hit_lines(found: SearchResult) -> Seq<Seq<PieceView>> {
    Seq::new(found.hits@.len(), |i: int| hit_line(found, i))
}

fn widest_name(hits: &Vec<Hit>) -> (r: usize)
    ensures
        r == name_width(hits@),
{
    let mut w: usize = 0;
    let mut i: usize = 0;
    assert(hits@.take(0) =~= Seq::<Hit>::empty());
    while i < hits.len()
        invariant
            i <= hits.len(),
            w == name_width(hits@.take(i as int)),
        decreases hits.len() - i,
    {
        assert(hits@.take(i + 1).drop_last() =~= hits@.take(i as int));
        let n = hits[i].name.as_str().len();
        if n > w {
            w = n;
        }
        i = i + 1;
    }
    assert(hits@.take(i as int) =~= hits@);
    w
}

fn search_panel(found: &SearchResult) -> (r: Panel)
    ensures
        lines_view(r.lines@) == hit_lines(*found),
        r.title@ == " Search: "@ + found.query@ + " (digit installs, Esc dismisses) "@,
{
    let width = widest_name(&found.hits);
    let ghost all = hit_lines(*found);
    let mut out: Vec<TextLine> = Vec::new();
    let mut i: usize = 0;
    assert(lines_view(out@) =~= all.take(0));
    while i < found.hits.len()
        invariant
            i <= found.hits.len(),
            width == name_width(found.hits@),
            all == hit_lines(*found),
            lines_view(out@) == all.take(i as int),
        decreases found.hits.len() - i,
    {
        let hit = &found.hits[i];
        let ghost was = lines_view(out@);
        let mut line: TextLine = vec![
            number(i),
            Piece {
                text: cat4(pad(hit.name.as_str(), width).as_str(), "  ", hit.version.as_str(), "  "),
                tone: Tone::Plain,
                bold: false,
            },
        ];
        match named(&found.installed, hit.name.as_str()) {
            Some(k) => {
                line.push(
                    Piece {
                        text: cat3("[installed ", found.installed[k].1.as_str(), "]  "),
                        tone: Tone::Green,
                        bold: false,
                    },
                );
            },
            None => {},
        }
        line.push(
            Piece { text: hit.description.clone(), tone: Tone::Gray, bold: false },
        );
        assert(line_view(line@) =~= hit_line(*found, i as int));
        out.push(line);
        assert(lines_view(out@) =~= was.push(all[i as int]));
        assert(all.take(i + 1) =~= all.take(i as int).push(all[i as int]));
        i = i + 1;
    }
    assert(all.take(i as int) =~= all);
    Panel {
        title: cat3(" Search: ", found.query.as_str(), " (digit installs, Esc dismisses) "),
        lines: out,
    }
}

/// The lines of the details panel, where no report owns it: an open offer, a
/// finished search, or the selected entry.
pub open spec fn panel_shows(app: App, panel: Panel) -> bool {
    match app.downgrade_choice {
        Some(choice) => {
            &&& lines_view(panel.lines@) == offer_lines(choice)
            &&& panel.title@ == " Downgrade "@ + choice.name@ + " from "@ + choice.current@
                + " (digit installs, Esc dismisses) "@
        },
        None => match app.search_result {
            Some(found) => {
                &&& lines_view(panel.lines@) == hit_lines(found)
                &&& panel.title@ == " Search: "@ + found.query@
                    + " (digit installs, Esc dismisses) "@
            },
            None => {
                &&& panel.title@ == " Selected "@
                &&& lines_view(panel.lines@) == match app.chosen() {
                    Some(row) => details_of(row),
                    None => seq![
                        seq![
                            PieceView {
                                text: "nothing selected"@,
                                tone: Tone::DarkGray,
                                bold: false,
                            },
                        ],
                    ],
                }
            },
        },
    }
}

/// The details panel, where no report owns it.
pub fn details_panel(app: &App) -> (r: Panel)
    ensures
        panel_shows(*app, r),
{
    match &app.downgrade_choice {
        Some(choice) => {
            return offer_panel(choice);
        },
        None => {},
    }
    match &app.search_result {
        Some(found) => {
            return search_panel(found);
        },
        None => {},
    }
    let lines = match app.selected_row() {
        Some(row) => detail_lines(row),
        None => {
            let line = vec![
                Piece {
                    text: "nothing selected".to_owned(),
                    tone: Tone::DarkGray,
                    bold: false,
                },
            ];
            let ghost one = line_view(line@);
            let lines = vec![line];
            assert(one =~= seq![
                PieceView { text: "nothing selected"@, tone: Tone::DarkGray, bold: false },
            ]);
            assert(lines_view(lines@) =~= seq![one]);
            lines
        },
    };
    Panel { title: " Selected ".to_owned(), lines }
}

/// The lines of a pinned report: its title, colored by what it is, then its own.
pub fn report_lines(report: &BuildReport) -> (r: Vec<Piece>)
    ensures
        line_view(r@) == seq![
            PieceView {
                text: report.title@,
                tone: if report.failed {
                    Tone::Red
                } else {
                    Tone::Yellow
                },
                bold: true,
            },
        ] + Seq::new(
            report.lines@.len(),
            |i: int|
                PieceView { text: report.lines@[i]@, tone: Tone::Plain, bold: false },
        ),
{
    let tone = if report.failed {
        Tone::Red
    } else {
        Tone::Yellow
    };
    let ghost all = seq![PieceView { text: report.title@, tone, bold: true }] + Seq::new(
        report.lines@.len(),
        |i: int| PieceView { text: report.lines@[i]@, tone: Tone::Plain, bold: false },
    );
    let mut out: Vec<Piece> = vec![Piece { text: report.title.clone(), tone, bold: true }];
    assert(line_view(out@) =~= all.take(1));
    let mut i: usize = 0;
    while i < report.lines.len()
        invariant
            i <= report.lines.len(),
            all == seq![PieceView { text: report.title@, tone, bold: true }] + Seq::new(
                report.lines@.len(),
                |i: int| PieceView { text: report.lines@[i]@, tone: Tone::Plain, bold: false },
            ),
            line_view(out@) == all.take(1 + i),
        decreases report.lines.len() - i,
    {
        let ghost was = line_view(out@);
        out.push(Piece { text: report.lines[i].clone(), tone: Tone::Plain, bold: false });
        assert(line_view(out@) =~= was.push(all[1 + i]));
        assert(all.take(2 + i) =~= all.take(1 + i).push(all[1 + i]));
        i = i + 1;
    }
    assert(all.take(1 + i) =~= all);
    out
}

/// Where text of so many rows stands in a panel of this height, borders and all:
/// how far it can be scrolled, and how far it is when `scroll` is asked for.
pub open spec fn window_of(rows: int, height: int, scroll: int) -> (int, int) {
    let inner = if height >= 3 {
        height - 2
    } else {
        1
    };
    let bound = if rows >= inner {
        rows - inner
    } else {
        0
    };
    (bound, if scroll <= bound {
        scroll
    } else {
        bound
    })
}

/// Where a pinned report stands in its panel: how far it can be scrolled, and how
/// far it is. `rows` is its height as the renderer wraps it, `height` the panel's
/// with its borders.
pub fn report_window(rows: u16, height: u16, scroll: u16) -> (r: (u16, u16))
    ensures
        (r.0 as int, r.1 as int) == window_of(rows as int, height as int, scroll as int),
{
    let inner: u16 = if height >= 3 {
        height - 2
    } else {
        1
    };
    let max: u16 = if rows >= inner {
        rows - inner
    } else {
        0
    };
    let effective: u16 = if scroll <= max {
        scroll
    } else {
        max
    };
    (max, effective)
}

/// How many rows `ratatui`'s word wrapper needs to show lines at a width without
/// trimming them.
pub uninterp spec fn wrapped_rows_of(lines: Seq<Seq<char>>, width: nat) -> nat;

/// The texts of pieces that each stand on a line of their own.
pub open spec fn piece_texts(pieces: Seq<Piece>) -> Seq<Seq<char>> {
    Seq::new(pieces.len(), |i: int| pieces[i].text@)
}

/// The widest column that text is wrapped to: the wrapper adds up cells in a
/// `u16`, at most four times the column's width less one.
pub const WIDEST_COLUMN: u16 = 16_384;

/// `ratatui::widgets::Paragraph::line_count` of an unframed paragraph that wraps
/// without trimming, one line to each piece. The count rests on the texts and the
/// width alone, not on the styles. How words are broken is named and not
/// described.
#[verifier::external_body]
fn wrapped_rows(pieces: &Vec<Piece>, width: u16) -> (r: usize)
    requires
        width <= WIDEST_COLUMN,
    ensures
        r == wrapped_rows_of(piece_texts(pieces@), width as nat),
{
    let lines: Vec<ratatui::text::Line> = pieces
        .iter()
        .map(|p| ratatui::text::Line::from(ratatui::text::Span::raw(p.text.as_str())))
        .collect();
    ratatui::widgets::Paragraph::new(lines)
        .wrap(ratatui::widgets::Wrap { trim: false })
        .line_count(width)
}

/// Where a pinned report stands in its area: how far it can be scrolled, and how
/// far it is. Its height is what the renderer's own word wrapper counts between
/// the borders, as far as a screen can tell.
pub fn report_view(report: &BuildReport, area: Area, scroll: u16) -> (r: (u16, u16))
    requires
        area.width <= WIDEST_COLUMN + 2,
    ensures
        ({
            let width = if area.width >= 3 {
                area.width - 2
            } else {
                1
            };
            let rows = wrapped_rows_of(
                seq![report.title@] + texts(report.lines@),
                width as nat,
            );
            (r.0 as int, r.1 as int) == window_of(
                at_most(rows, u16::MAX as nat) as int,
                area.height as int,
                scroll as int,
            )
        }),
{
    let width: u16 = if area.width >= 3 {
        area.width - 2
    } else {
        1
    };
    let lines = report_lines(report);
    proof {
        let shown = line_view(lines@);
        let all = seq![report.title@] + texts(report.lines@);
        assert(lines@.len() == shown.len());
        assert forall|i: int| 0 <= i < all.len() implies lines@[i].text@ == #[trigger] all[i] by {
            assert(lines@[i].text@ == shown[i].text);
        }
        assert(piece_texts(lines@) =~= all);
    }
    let counted: usize = wrapped_rows(&lines, width);
    let rows: u16 = if counted <= u16::MAX as usize {
        counted as u16
    } else {
        u16::MAX
    };
    report_window(rows, area.height, scroll)
}

/// What stands in a report panel's frame.
pub fn report_frame(max_scroll: u16) -> (r: &'static str)
    ensures
        r@ == if max_scroll > 0 {
            " Esc/Enter dismisses · Up/Down scrolls "@
        } else {
            " Esc/Enter dismisses "@
        },
{
    if max_scroll > 0 {
        " Esc/Enter dismisses · Up/Down scrolls "
    } else {
        " Esc/Enter dismisses "
    }
}

/// The footer's key bar: only the keys the current state actually answers.
pub open spec fn keys_text(app: App) -> Seq<char> {
    let building = app.job matches Some(Job::Build(_));
    let oneshot = app.job is Some && !(app.job matches Some(Job::Build(_)));
    if app.confirm is Some {
        " y confirm · any other key cancel"@
    } else if app.input is Some {
        " Enter run · Esc cancel"@
    } else if app.manifest_error is Some {
        if oneshot {
            " manifest unavailable · c cancel · ? help · q quit"@
        } else {
            " manifest unavailable · v verify · r retry load · B other prefix · ? help · q quit"@
        }
    } else if building {
        if app.build_report is Some {
            " ↑/↓ scroll warnings · Esc/Enter dismiss · c cancel/escalate · Ctrl-C cancel/quit"@
        } else {
            " ↑/↓ select · c cancel/escalate · Ctrl-C cancel/quit"@
        }
    } else if oneshot {
        " ↑/↓ select · c cancel · ? help · q quit"@
    } else {
        " ↑/↓ select · Tab filter · Enter/u update · U update all · i install · x remove · m migrate · M migrate all · B other prefix · p pin · D downgrade · t reinstall · T reinstall all · v verify · r check · s search · ? help · q quit"@
    }
}

/// The footer's key bar: a bar promising doors that a degraded session keeps
/// locked would be instructions for nothing.
pub fn key_bar(app: &App) -> (r: &'static str)
    ensures
        r@ == keys_text(*app),
{
    if app.confirm.is_some() {
        " y confirm · any other key cancel"
    } else if app.input.is_some() {
        " Enter run · Esc cancel"
    } else if app.manifest_error.is_some() {
        if app.oneshot_running() {
            " manifest unavailable · c cancel · ? help · q quit"
        } else {
            " manifest unavailable · v verify · r retry load · B other prefix · ? help · q quit"
        }
    } else if app.build_running() {
        if app.build_report.is_some() {
            " ↑/↓ scroll warnings · Esc/Enter dismiss · c cancel/escalate · Ctrl-C cancel/quit"
        } else {
            " ↑/↓ select · c cancel/escalate · Ctrl-C cancel/quit"
        }
    } else if app.oneshot_running() {
        " ↑/↓ select · c cancel · ? help · q quit"
    } else {
        " ↑/↓ select · Tab filter · Enter/u update · U update all · i install · x remove · m migrate · M migrate all · B other prefix · p pin · D downgrade · t reinstall · T reinstall all · v verify · r check · s search · ? help · q quit"
    }
}

/// The footer's status line; `age` is how long ago the report was made, in words.
/// "0 updates" alone would read as "all current", and in the degraded state a
/// count would be invented: not zero, unknown.
pub open spec fn status_text(app: App, age: Option<Seq<char>>) -> Seq<char> {
    let rows = app.rows@;
    if app.manifest_error is Some {
        " managed crate count unavailable — the manifest did not load"@
    } else {
        let pinned = tally(Tally::Pinned, rows);
        let held = tally(Tally::PinnedOutdated, rows);
        let unchecked = tally(Tally::Unchecked, rows);
        " "@ + decimal(rows.len()) + " packages · "@ + decimal(tally(Tally::Updates, rows))
            + " updates"@ + (if pinned == 0 {
            Seq::empty()
        } else if held == 0 {
            " · "@ + decimal(pinned) + " pinned"@
        } else {
            " · "@ + decimal(pinned) + " pinned ("@ + decimal(held) + " behind)"@
        }) + (if unchecked > 0 {
            " · "@ + decimal(unchecked) + " not checked"@
        } else {
            Seq::empty()
        }) + (" · "@ + match age {
            Some(age) => "checked "@ + age,
            None => "never checked"@,
        })
    }
}

/// The footer's status line.
pub fn status_line(app: &App, age: Option<&str>) -> (r: Piece)
    ensures
        r.text@ == status_text(
            *app,
            match age {
                Some(age) => Some(age@),
                None => None,
            },
        ),
        r.tone == if app.manifest_error is Some {
            Tone::Red
        } else {
            Tone::DarkGray
        },
        !r.bold,
{
    if app.manifest_error.is_some() {
        return Piece {
            text: " managed crate count unavailable — the manifest did not load".to_owned(),
            tone: Tone::Red,
            bold: false,
        };
    }
    let pinned = app.pinned_count();
    let held = app.pinned_outdated();
    let unchecked = app.not_checked();
    let mut text = cat5(
        " ",
        count_of(app.total()).as_str(),
        " packages · ",
        count_of(app.updates_available()).as_str(),
        " updates",
    );
    let pins = if pinned == 0 {
        String::new()
    } else if held == 0 {
        cat3(" · ", count_of(pinned).as_str(), " pinned")
    } else {
        cat5(
            " · ",
            count_of(pinned).as_str(),
            " pinned (",
            count_of(held).as_str(),
            " behind)",
        )
    };
    text.append(pins.as_str());
    let gap = if unchecked > 0 {
        cat3(" · ", count_of(unchecked).as_str(), " not checked")
    } else {
        String::new()
    };
    text.append(gap.as_str());
    let checked = match age {
        Some(age) => cat("checked ", age),
        None => "never checked".to_owned(),
    };
    text.append(cat(" · ", checked.as_str()).as_str());
    Piece { text, tone: Tone::DarkGray, bold: false }
}

/// The footer's last line; `typing` where the cursor stands after it.
pub struct BottomLine {
    pub piece: Piece,
    pub typing: bool,
}

/// The footer's last line, by priority: a pending confirmation, an open input, a
/// background job that the gauge does not show already, the last message.
pub open spec fn bottom_text(app: App, now: u64) -> Option<(PieceView, bool)> {
    match app.confirm {
        Some(confirm) => Some(
            (
                PieceView { text: " "@ + confirm.prompt@, tone: Tone::Yellow, bold: true },
                false,
            ),
        ),
        None => match app.input {
            Some(input) => Some(
                (
                    PieceView {
                        text: " "@ + (match input.purpose {
                            InputPurpose::Install => "install: "@,
                            InputPurpose::Search => "search: "@,
                        }) + input.buffer@,
                        tone: Tone::Plain,
                        bold: false,
                    },
                    true,
                ),
            ),
            None => if app.gauge(now) is None && app.job is Some {
                Some(
                    (
                        PieceView {
                            text: " "@ + app.job->0.words(),
                            tone: Tone::Cyan,
                            bold: false,
                        },
                        false,
                    ),
                )
            } else {
                match app.message {
                    Some(message) => Some(
                        (
                            PieceView {
                                text: " "@ + message.text@,
                                tone: match message.kind {
                                    MessageKind::Info => Tone::Green,
                                    MessageKind::Warning => Tone::Yellow,
                                    MessageKind::Error => Tone::Red,
                                },
                                bold: false,
                            },
                            false,
                        ),
                    ),
                    None => None,
                }
            },
        },
    }
}

/// The footer's last line.
pub fn bottom_line(app: &App, now: u64) -> (r: Option<BottomLine>)
    ensures
        match bottom_text(*app, now) {
            Some((view, typing)) => r matches Some(line) && line.typing == typing && (PieceView {
                text: line.piece.text@,
                tone: line.piece.tone,
                bold: line.piece.bold,
            }) == view,
            None => r is None,
        },
{
    match &app.confirm {
        Some(confirm) => {
            return Some(
                BottomLine {
                    piece: Piece {
                        text: cat(" ", confirm.prompt.as_str()),
                        tone: Tone::Yellow,
                        bold: true,
                    },
                    typing: false,
                },
            );
        },
        None => {},
    }
    match &app.input {
        Some(input) => {
            let label = match input.purpose {
                InputPurpose::Install => "install: ",
                InputPurpose::Search => "search: ",
            };
            return Some(
                BottomLine {
                    piece: Piece {
                        text: cat3(" ", label, input.buffer.as_str()),
                        tone: Tone::Plain,
                        bold: false,
                    },
                    typing: true,
                },
            );
        },
        None => {},
    }
    if app.build_progress(now).is_none() {
        match app.busy() {
            Some(label) => {
                return Some(
                    BottomLine {
                        piece: Piece {
                            text: cat(" ", label.as_str()),
                            tone: Tone::Cyan,
                            bold: false,
                        },
                        typing: false,
                    },
                );
            },
            None => {},
        }
    }
    match &app.message {
        Some(message) => {
            let tone = match message.kind {
                MessageKind::Info => Tone::Green,
                MessageKind::Warning => Tone::Yellow,
                MessageKind::Error => Tone::Red,
            };
            Some(
                BottomLine {
                    piece: Piece { text: cat(" ", message.text.as_str()), tone, bold: false },
                    typing: false,
                },
            )
        },
        None => None,
    }
}

/// A rectangle of the screen.
#[derive(Clone, Copy, PartialEq, Eq, Debug, Structural)]
pub struct Area {
    pub x: u16,
    pub y: u16,
    pub width: u16,
    pub height: u16,
}

impl Area {
    /// Whether the rectangle's far edges can be addressed.
    pub open spec fn addressable(self) -> bool {
        self.x + self.width <= u16::MAX && self.y + self.height <= u16::MAX
    }
}

/// Where the cursor stands after typed text: at most in the last column of the
/// line that can be addressed.
pub fn cursor_column(line: Area, text: &str) -> (r: u16)
    ensures
        ({
            let end = line.x + text@.len();
            let right = at_most((line.x + line.width) as nat, 65535);
            let last = if right >= 1 {
                right - 1
            } else {
                0
            };
            r == if end <= last {
                end as int
            } else {
                last
            }
        }),
{
    let n = chars_of(text).len();
    let right: u16 = if line.width <= 65535 - line.x {
        line.x + line.width
    } else {
        65535
    };
    let last: u16 = if right >= 1 {
        right - 1
    } else {
        0
    };
    if n <= 65535 && (n as u32) + (line.x as u32) <= last as u32 {
        line.x + n as u16
    } else {
        last
    }
}

/// A rectangle in the middle of another, shrunk to fit.
pub open spec fn centered_in(area: Area, width: int, height: int) -> Area {
    let w = if width <= area.width {
        width
    } else {
        area.width as int
    };
    let h = if height <= area.height {
        height
    } else {
        area.height as int
    };
    Area {
        x: (area.x + (area.width - w) / 2) as u16,
        y: (area.y + (area.height - h) / 2) as u16,
        width: w as u16,
        height: h as u16,
    }
}

/// Whether the corner of a rectangle in the middle of another can be addressed.
pub open spec fn centers(area: Area, width: int, height: int) -> bool {
    &&& width < area.width ==> area.x + (area.width - width) / 2 <= u16::MAX
    &&& height < area.height ==> area.y + (area.height - height) / 2 <= u16::MAX
}

/// A `width`×`height` rectangle in the middle of `area`, shrunk to fit.
pub fn centered(area: Area, width: u16, height: u16) -> (r: Area)
    requires
        centers(area, width as int, height as int),
    ensures
        r == centered_in(area, width as int, height as int),
{
    let w: u16 = if width <= area.width {
        width
    } else {
        area.width
    };
    let h: u16 = if height <= area.height {
        height
    } else {
        area.height
    };
    Area {
        x: area.x + (area.width - w) / 2,
        y: area.y + (area.height - h) / 2,
        width: w,
        height: h,
    }
}

/// In a rectangle whose edges can be addressed, every other can be centered, and
/// stays inside.
pub proof fn law_centered_stays_inside(area: Area, width: u16, height: u16)
    requires
        area.addressable(),
    ensures
        centers(area, width as int, height as int),
        ({
            let r = centered_in(area, width as int, height as int);
            &&& area.x <= r.x
            &&& r.x + r.width <= area.x + area.width
            &&& area.y <= r.y
            &&& r.y + r.height <= area.y + area.height
        }),
{
}

/// The help page. One text, line by line.
pub const HELP: &'static str = "↑/↓ j/k     select        Tab       Packages / Updates / Pinned
g/G Home/End first / last ?         this help

Enter, u    update selected crate (confirmed in the terminal)
U           run update --all: fresh plan from crates.io, not the cache
i           install: NAME[@VERSION]... [--locked]  (@VERSION pins);
            a single crate builds in place inside the Build panel,
            a batch hands the terminal over as before
x           remove selected crate (asks first; in place unless
            removal needs sudo — then the terminal, as before)
m           migrate selected crate to the other prefix (asks
            first; pinned rebuilds its exact version there,
            unpinned installs the latest; retired here;
            /usr/local <-> ~/.local only, custom via CLI --to)
M           migrate every crate (asks first; a queue of single
            migrations, one summary; c cancels the batch)
c           cancel the running build (again, or automatically
            after ~2s of no effect: SIGKILL); past the placement
            door a cancel is too late: an install finishes placing,
            a migration proceeds through its retirement attempt;
            for r/v/s: request cancellation — the update check stops
            between requests, a verify/search result is discarded
B           jump to the other prefix (/usr/local <-> ~/.local);
            the selection follows the crate when it is visible there
p           pin / unpin selected crate; a pin declares the version:
            update --all holds it back, m migrates exactly it
            (in place unless pinning needs sudo)
D           downgrade: the panel offers older versions, a digit installs one
t           reinstall selected crate: rebuild exactly as installed —
            same version, same pin, same --locked, new artifacts
            (for a new toolchain or system library)
T           reinstall all crates under this prefix; the plan and its
            confirmation happen in the terminal
v           verify: the manifest's claims checked against the disk,
            read-only; violations and warnings land in a panel,
            naming the repair where one is unambiguous
r           check crates.io for updates (writes the report)
s           search crates.io by keyword; a digit then picks a hit
            and opens the install line with its name

Nothing runs on its own: no refresh or network access on start.
Single-crate installs build inside the TUI: the build runs first
and sudo is asked for when placement begins, on the real terminal
(the first lock in a prefix is the exception — that one is asked
before the build); a failed build
keeps its last lines and the log path in the details panel.
update and batch installs hand the terminal to cargo
and sudo as before, and return when you press Enter.

q / Esc     quit (from the list); during a build, Ctrl-C
            cancels it and quits once the worker stops

any key closes this help";

/// The degraded state's help page: its own short page, not the normal one grayed
/// out.
pub const DEGRADED_HELP: &'static str = "v           verify: audit the broken managed state
c           cancel the running verify (its result is discarded)
r           retry loading the manifest
B           switch to the other known prefix
q / Esc     quit (from the list)

The manifest did not load. Mutating actions, update
checks and search are disabled until it is repaired
by hand — v names every finding.

any key closes this help";

/// The help page for the state: the one function still standing in the degraded
/// state must not hand out instructions for locked doors.
pub fn help_lines(app: &App) -> (r: Vec<String>)
    ensures
        texts(r@) == lines_of(
            if app.manifest_error is Some {
                DEGRADED_HELP@
            } else {
                HELP@
            },
        ),
{
    if app.manifest_error.is_some() {
        lines(DEGRADED_HELP)
    } else {
        lines(HELP)
    }
}

/// The widest of these lines, in characters.
pub open spec fn widest(lines: Seq<Seq<char>>) -> nat
    decreases lines.len(),
{
    if lines.len() == 0 {
        0
    } else {
        let before = widest(lines.drop_last());
        if lines.last().len() > before {
            lines.last().len()
        } else {
            before
        }
    }
}

/// The help popup: centered, sized from the widest line and the number of lines,
/// with room for the frame.
pub fn help_box(lines: &Vec<String>, area: Area) -> (r: Area)
    requires
        centers(
            area,
            at_most(widest(texts(lines@)) + 4, 65535) as int,
            at_most(lines@.len() + 2, 65535) as int,
        ),
    ensures
        r == centered_in(
            area,
            at_most(widest(texts(lines@)) + 4, 65535) as int,
            at_most(lines@.len() + 2, 65535) as int,
        ),
{
    let mut w: usize = 0;
    let mut i: usize = 0;
    assert(texts(lines@).take(0) =~= Seq::<Seq<char>>::empty());
    while i < lines.len()
        invariant
            i <= lines.len(),
            w == widest(texts(lines@).take(i as int)),
        decreases lines.len() - i,
    {
        let ghost all = texts(lines@);
        assert(all.take(i + 1).drop_last() =~= all.take(i as int));
        let n = chars_of(lines[i].as_str()).len();
        if n > w {
            w = n;
        }
        i = i + 1;
    }
    assert(texts(lines@).take(i as int) =~= texts(lines@));
    let width: u16 = if w <= 65531 {
        (w + 4) as u16
    } else {
        65535
    };
    let height: u16 = if lines.len() <= 65533 {
        (lines.len() + 2) as u16
    } else {
        65535
    };
    centered(area, width, height)
}

/// The details say every fact of the entry as it is: name, version, the newest
/// version known, binaries, `--locked` and pin, and one line for each other
/// prefix.
pub proof fn law_the_details_are_the_entry(row: Row, r: Vec<TextLine>)
    requires
        call_ensures(detail_lines, (&row,), r),
    ensures
        r.len() == 6 + row.also.len(),
        forall|i: int| 0 <= i < r.len() ==> (#[trigger] r@[i]).len() == 2 && r@[i]@[0].bold,
        r@[0]@[1].text@ == row.name@,
        r@[1]@[1].text@ == row.version@,
        row.status matches RowStatus::Outdated(v) ==> r@[2]@[1].text@ == v@ && r@[2]@[1].tone
            is Yellow,
        row.status is UpToDate ==> r@[2]@[1].text@ == row.version@ && r@[2]@[1].tone is Green,
        row.status is Unknown ==> r@[2]@[1].text@ == "not checked (press r)"@,
        r@[3]@[1].text@ == joined(texts(row.bins@), ", "@),
        row.locked ==> r@[4]@[1].text@ == "yes (--locked, reused on update)"@,
        !row.locked ==> r@[4]@[1].text@ == "no"@,
        row.pinned ==> r@[5]@[1].text@ == "yes — held at this version; p to unpin"@,
        !row.pinned ==> r@[5]@[1].text@ == "no"@,
        forall|i: int|
            0 <= i < row.also.len() ==> (#[trigger] r@[6 + i])@[1].text@ == sanitized(
                row.also@[i].prefix@ + " @"@ + row.also@[i].version@,
            ),
{
    let view = lines_view(r@);
    let all = details_of(row);
    assert(view.len() == r.len());
    assert forall|i: int| 0 <= i < r.len() implies (#[trigger] r@[i]).len() == 2 && r@[i]@[0].bold by {
        assert(view[i] == line_view(r@[i]@));
        assert(all[i].len() == 2 && all[i][0].bold);
        assert(line_view(r@[i]@)[0].bold == r@[i]@[0].bold);
    }
    lemma_second_piece(r@, 0);
    lemma_second_piece(r@, 1);
    lemma_second_piece(r@, 2);
    lemma_second_piece(r@, 3);
    lemma_second_piece(r@, 4);
    lemma_second_piece(r@, 5);
    assert forall|i: int| 0 <= i < row.also.len() implies (#[trigger] r@[6 + i])@[1].text@
        == sanitized(row.also@[i].prefix@ + " @"@ + row.also@[i].version@) by {
        lemma_second_piece(r@, 6 + i);
        assert(all[6 + i][1].text == sanitized(
            row.also@[i].prefix@ + " @"@ + row.also@[i].version@,
        ));
    }
}

proof fn lemma_second_piece(lines: Seq<Vec<Piece>>, i: int)
    requires
        0 <= i < lines.len(),
        lines_view(lines)[i].len() == 2,
    ensures
        lines[i].len() == 2,
        lines[i]@[1].text@ == lines_view(lines)[i][1].text,
        lines[i]@[1].tone == lines_view(lines)[i][1].tone,
{
    assert(lines_view(lines)[i] == line_view(lines[i]@));
}

/// A row's status is told by its words and its color: what is newer by its
/// version.
pub proof fn law_a_status_is_told_apart(status: RowStatus, r: Piece)
    requires
        call_ensures(status_cell, (&status,), r),
    ensures
        status is UpToDate <==> r.tone is Green,
        status is Outdated <==> r.tone is Yellow,
        status is Unknown <==> r.tone is Gray,
        status is UpToDate ==> r.text@ == "✓ up to date"@,
        status is Outdated ==> r.text@ == "↑ "@ + status->Outdated_0@,
        status is Unknown ==> r.text@ == "? not checked"@,
{
}

/// The list shows a crate by its name, marked as locked and as pinned exactly
/// where it is, and with the other prefixes exactly where there are some.
pub proof fn law_the_list_marks_what_holds(row: Row, also: &str, r: String)
    requires
        call_ensures(list_name, (&row, also), r),
    ensures
        r@.len() >= row.name@.len() && r@.take(row.name@.len() as int) == row.name@,
        r@.skip(row.name@.len() as int) == (if row.locked {
            " [locked]"@
        } else {
            Seq::empty()
        }) + (if row.pinned {
            " [pinned]"@
        } else {
            Seq::empty()
        }) + (if row.also.len() > 0 {
            also@
        } else {
            Seq::empty()
        }),
{
    assert(r@.take(row.name@.len() as int) =~= row.name@);
    assert(r@.skip(row.name@.len() as int) =~= (if row.locked {
        " [locked]"@
    } else {
        Seq::empty()
    }) + (if row.pinned {
        " [pinned]"@
    } else {
        Seq::empty()
    }) + (if row.also.len() > 0 {
        also@
    } else {
        Seq::empty()
    }));
}

/// The tabs show their counts, and the frame the prefix.
pub proof fn law_tabs_show_their_counts(
    app: App,
    r: Vec<String>,
    updates: usize,
    pinned: usize,
    title: String,
)
    requires
        call_ensures(tab_titles, (&app,), r),
        call_ensures(App::updates_available, (&app,), updates),
        call_ensures(App::pinned_count, (&app,), pinned),
        call_ensures(header_title, (&app,), title),
    ensures
        r.len() == 3,
        r@[0]@ == " Packages ("@ + decimal(app.rows.len() as nat) + ") "@,
        r@[1]@ == " Updates ("@ + decimal(updates as nat) + ") "@,
        r@[2]@ == " Pinned ("@ + decimal(pinned as nat) + ") "@,
        title@ == " cargo-lbin — "@ + app.prefix@ + " "@,
{
    let shown = texts(r@);
    assert(shown.len() == r.len());
    assert(shown[0] == r@[0]@ && shown[1] == r@[1]@ && shown[2] == r@[2]@);
}

/// An empty view says why it is empty and which key helps.
pub proof fn law_an_empty_view_says_why(
    all: &'static str,
    updates: &'static str,
    pinned: &'static str,
)
    requires
        call_ensures(empty_note, (Filter::All,), all),
        call_ensures(empty_note, (Filter::Updates,), updates),
        call_ensures(empty_note, (Filter::Pinned,), pinned),
    ensures
        all@ == "nothing installed under this prefix — press i to install"@,
        updates@ == "no unpinned updates known — press r to check crates.io"@,
        pinned@ == "no pinned crates — p in Packages pins the selected crate"@,
{
}

/// An offer shows its versions under the digits that pick them, and counts those
/// it leaves out.
pub proof fn law_an_offer_is_numbered(app: App, r: Panel, i: int)
    requires
        app.downgrade_choice is Some,
        call_ensures(details_panel, (&app,), r),
    ensures
        ({
            let choice = app.downgrade_choice->0;
            &&& r.lines.len() == choice.versions.len() + if choice.older > 0 {
                1int
            } else {
                0
            }
            &&& 0 <= i < choice.versions.len() ==> r.lines@[i].len() == 2
                && r.lines@[i]@[0].text@ == "["@ + decimal((i + 1) as nat) + "] "@
                && r.lines@[i]@[1].text@ == choice.versions@[i]@
            &&& choice.older > 0 ==> r.lines@.last().len() == 1 && r.lines@.last()@[0].text@
                == "and "@ + decimal(choice.older as nat) + " older — install "@ + choice.name@
                + "@VERSION for one of those"@
            &&& r.title@ == " Downgrade "@ + choice.name@ + " from "@ + choice.current@
                + " (digit installs, Esc dismisses) "@
        }),
{
    let choice = app.downgrade_choice->0;
    let view = lines_view(r.lines@);
    assert(view.len() == r.lines.len());
    if 0 <= i < choice.versions.len() {
        lemma_second_piece(r.lines@, i);
        assert(view[i] == line_view(r.lines@[i]@));
        assert(view[i][0].text == r.lines@[i]@[0].text@);
    }
    if choice.older > 0 {
        let last = view.len() - 1;
        assert(view[last] == line_view(r.lines@[last]@));
        assert(view[last].len() == 1);
        assert(view[last][0].text == r.lines@[last]@[0].text@);
    }
}

/// A search shows its hits under the digits that pick them, each with its name,
/// its version and its description, and marks as installed exactly those that the
/// result says are, with the version that is.
pub proof fn law_hits_are_numbered_and_marked(app: App, r: Panel, i: int, k: int)
    requires
        app.downgrade_choice is None,
        app.search_result is Some,
        call_ensures(details_panel, (&app,), r),
        0 <= i < app.search_result->0.hits.len(),
    ensures
        ({
            let found = app.search_result->0;
            let hit = found.hits@[i];
            let line = r.lines@[i]@;
            &&& r.lines.len() == found.hits.len()
            &&& line.len() == 3 || line.len() == 4
            &&& line[0].text@ == "["@ + decimal((i + 1) as nat) + "] "@
            &&& line[1].text@.len() >= hit.name@.len() && line[1].text@.take(
                hit.name@.len() as int,
            ) == hit.name@
            &&& line.last().text@ == hit.description@
            &&& line.len() == 4 <==> exists|j: int|
                0 <= j < found.installed.len() && (#[trigger] found.installed@[j]).0@ == hit.name@
            &&& 0 <= k < found.installed.len() && found.installed@[k].0@ == hit.name@ && (forall|
                j: int,
            |
                0 <= j < k ==> (#[trigger] found.installed@[j]).0@ != hit.name@) ==> line[2].text@
                == "[installed "@ + found.installed@[k].1@ + "]  "@
            &&& r.title@ == " Search: "@ + found.query@ + " (digit installs, Esc dismisses) "@
        }),
{
    let found = app.search_result->0;
    let hit = found.hits@[i];
    let view = lines_view(r.lines@);
    assert(view.len() == r.lines.len());
    let line = r.lines@[i]@;
    let shown = line_view(line);
    assert(view[i] == shown);
    assert(shown == hit_line(found, i));
    assert(shown.len() == line.len());
    assert forall|p: int| 0 <= p < line.len() implies shown[p].text == (#[trigger] line[p]).text@ by {}
    assert(line[1].text@.take(hit.name@.len() as int) =~= hit.name@);
    let names = names_of(found.installed@);
    crate::text::lemma_first_named(names, hit.name@);
    assert forall|j: int| 0 <= j < found.installed.len() implies names[j] == (
    #[trigger] found.installed@[j]).0@ by {}
    if 0 <= k < found.installed.len() && found.installed@[k].0@ == hit.name@ && (forall|j: int|
        0 <= j < k ==> (#[trigger] found.installed@[j]).0@ != hit.name@) {
        crate::text::lemma_first_named_is(names, hit.name@, k);
    }
    assert(line[line.len() - 1].text@ == hit.description@);
}

/// Without an offer or a search, the panel shows the selected crate's details,
/// and says so where nothing is selected.
pub proof fn law_the_panel_shows_the_selected_crate(
    app: App,
    r: Panel,
    row: Option<&Row>,
    details: Vec<TextLine>,
)
    requires
        app.downgrade_choice is None,
        app.search_result is None,
        call_ensures(details_panel, (&app,), r),
        call_ensures(App::selected_row, (&app,), row),
        row is Some ==> call_ensures(detail_lines, (row->0,), details),
    ensures
        r.title@ == " Selected "@,
        row is Some ==> lines_view(r.lines@) == lines_view(details@),
        row is None ==> r.lines.len() == 1 && r.lines@[0]@[0].text@ == "nothing selected"@,
{
    if row is None {
        let view = lines_view(r.lines@);
        assert(view.len() == r.lines.len());
        assert(view[0] == line_view(r.lines@[0]@));
        assert(view[0].len() == 1);
        assert(view[0][0].text == r.lines@[0]@[0].text@);
    }
}

/// A report shows its title and then its lines, all of them in order; the title
/// is red exactly where it failed.
pub proof fn law_a_report_shows_all_its_lines(report: BuildReport, r: Vec<Piece>)
    requires
        call_ensures(report_lines, (&report,), r),
    ensures
        r.len() == 1 + report.lines.len(),
        r@[0].text@ == report.title@ && r@[0].bold,
        r@[0].tone is Red <==> report.failed,
        r@[0].tone is Yellow <==> !report.failed,
        forall|i: int|
            0 <= i < report.lines.len() ==> (#[trigger] r@[1 + i]).text@ == report.lines@[i]@
                && !r@[1 + i].bold,
{
    let view = line_view(r@);
    assert(view.len() == r.len());
    assert(view[0].text == r@[0].text@ && view[0].tone == r@[0].tone && view[0].bold == r@[0].bold);
    assert forall|i: int| 0 <= i < report.lines.len() implies (#[trigger] r@[1 + i]).text@
        == report.lines@[i]@ && !r@[1 + i].bold by {
        assert(view[1 + i].text == r@[1 + i].text@);
    }
}

/// A report is scrolled no further than to its last row, and no further than was
/// asked: at the bound the last row is the panel's last, and what fits is not
/// scrolled at all.
pub proof fn law_a_report_is_scrolled_to_its_end(rows: u16, height: u16, scroll: u16, r: (u16, u16))
    requires
        height >= 3,
        call_ensures(report_window, (rows, height, scroll), r),
    ensures
        r.1 <= r.0 && r.1 <= scroll,
        scroll <= r.0 ==> r.1 == scroll,
        scroll > r.0 ==> r.1 == r.0,
        rows > height - 2 ==> r.0 + (height - 2) == rows,
        rows <= height - 2 ==> r.0 == 0,
{
}

/// What a report's height is counted from: its title and its lines, as they wrap
/// between the borders.
pub proof fn law_a_reports_rows_are_counted_as_they_wrap(
    report: BuildReport,
    area: Area,
    scroll: u16,
    r: (u16, u16),
    rows: u16,
    window: (u16, u16),
)
    requires
        3 <= area.width <= 16386,
        rows as nat == if wrapped_rows_of(
            seq![report.title@] + texts(report.lines@),
            (area.width - 2) as nat,
        ) < 65535 {
            wrapped_rows_of(
                seq![report.title@] + texts(report.lines@),
                (area.width - 2) as nat,
            )
        } else {
            65535
        },
        call_ensures(report_view, (&report, area, scroll), r),
        call_ensures(report_window, (rows, area.height, scroll), window),
    ensures
        r == window,
{
}

/// The frame says that a report scrolls exactly where it does.
pub proof fn law_the_frame_says_what_scrolls(max: u16, r: &'static str)
    requires
        call_ensures(report_frame, (max,), r),
    ensures
        max == 0 ==> r@ == " Esc/Enter dismisses "@,
        max > 0 ==> r@ == " Esc/Enter dismisses · Up/Down scrolls "@,
{
}

/// The footer offers the keys of whatever has the turn: the question, the line,
/// the degraded list, the build, the lookup, or the list.
pub proof fn law_the_key_bar_follows_the_turn(app: App, r: &'static str, build: bool, oneshot: bool)
    requires
        call_ensures(key_bar, (&app,), r),
        call_ensures(App::build_running, (&app,), build),
        call_ensures(App::oneshot_running, (&app,), oneshot),
    ensures
        app.confirm is Some ==> r@ == " y confirm · any other key cancel"@,
        app.confirm is None && app.input is Some ==> r@ == " Enter run · Esc cancel"@,
        app.confirm is None && app.input is None && app.manifest_error is Some ==> r@
            == if oneshot {
            " manifest unavailable · c cancel · ? help · q quit"@
        } else {
            " manifest unavailable · v verify · r retry load · B other prefix · ? help · q quit"@
        },
        app.confirm is None && app.input is None && app.manifest_error is None ==> {
            &&& build && app.build_report is Some ==> r@
                == " ↑/↓ scroll warnings · Esc/Enter dismiss · c cancel/escalate · Ctrl-C cancel/quit"@
            &&& build && app.build_report is None ==> r@
                == " ↑/↓ select · c cancel/escalate · Ctrl-C cancel/quit"@
            &&& oneshot ==> r@ == " ↑/↓ select · c cancel · ? help · q quit"@
            &&& !build && !oneshot ==> r@
                == " ↑/↓ select · Tab filter · Enter/u update · U update all · i install · x remove · m migrate · M migrate all · B other prefix · p pin · D downgrade · t reinstall · T reinstall all · v verify · r check · s search · ? help · q quit"@
        },
{
}

/// The status line counts what the list holds, and counts nothing where the
/// manifest did not load.
pub proof fn law_the_status_line_counts_the_list(
    app: App,
    age: Option<&str>,
    r: Piece,
    updates: usize,
    pinned: usize,
    behind: usize,
    unchecked: usize,
)
    requires
        call_ensures(status_line, (&app, age), r),
        call_ensures(App::updates_available, (&app,), updates),
        call_ensures(App::pinned_count, (&app,), pinned),
        call_ensures(App::pinned_outdated, (&app,), behind),
        call_ensures(App::not_checked, (&app,), unchecked),
    ensures
        app.manifest_error is Some ==> r.tone is Red && r.text@
            == " managed crate count unavailable — the manifest did not load"@,
        app.manifest_error is None ==> r.text@ == " "@ + decimal(app.rows.len() as nat)
            + " packages · "@ + decimal(updates as nat) + " updates"@ + (if pinned == 0 {
            Seq::empty()
        } else if behind == 0 {
            " · "@ + decimal(pinned as nat) + " pinned"@
        } else {
            " · "@ + decimal(pinned as nat) + " pinned ("@ + decimal(behind as nat) + " behind)"@
        }) + (if unchecked > 0 {
            " · "@ + decimal(unchecked as nat) + " not checked"@
        } else {
            Seq::empty()
        }) + (" · "@ + match age {
            Some(age) => "checked "@ + age@,
            None => "never checked"@,
        }),
{
}

/// The last line is the open question, else the open line with the cursor behind
/// it, else the lookup that runs, else what was last said, in the color of its
/// kind.
pub proof fn law_the_last_line_is_whose_turn_it_is(
    app: App,
    now: u64,
    r: Option<BottomLine>,
    label: Option<String>,
)
    requires
        call_ensures(bottom_line, (&app, now), r),
        call_ensures(App::busy, (&app,), label),
    ensures
        app.confirm is Some ==> r is Some && r->0.piece.text@ == " "@ + app.confirm->0.prompt@
            && !r->0.typing && r->0.piece.bold,
        app.confirm is None && app.input is Some ==> r is Some && r->0.typing && r->0.piece.text@
            == " "@ + (if app.input->0.purpose is Install {
            "install: "@
        } else {
            "search: "@
        }) + app.input->0.buffer@,
        ({
            let free = app.confirm is None && app.input is None;
            let looks = app.job is Some && !(app.job->0 is Build) && !(app.job->0 is Verify);
            &&& free && looks ==> r is Some && label is Some && r->0.piece.text@ == " "@
                + label->0@ && !r->0.typing
            &&& free && !looks && app.message is Some ==> r is Some && r->0.piece.text@ == " "@
                + app.message->0.text@ && !r->0.typing && (app.message->0.kind is Info
                <==> r->0.piece.tone is Green) && (app.message->0.kind is Warning
                <==> r->0.piece.tone is Yellow) && (app.message->0.kind is Error
                <==> r->0.piece.tone is Red)
            &&& free && !looks && app.message is None ==> r is None
        }),
{
}

/// The cursor stands right behind the text, as long as the line reaches, and never
/// outside the line.
pub proof fn law_the_cursor_stays_on_its_line(line: Area, text: &str, r: u16)
    requires
        line.addressable(),
        line.width > 0,
        call_ensures(cursor_column, (line, text), r),
    ensures
        line.x <= r < line.x + line.width,
        text@.len() < line.width ==> r == line.x + text@.len(),
        text@.len() >= line.width ==> r == line.x + line.width - 1,
{
}

/// A centered rectangle is as large as asked where there is room, no larger than
/// the room, and leaves the same room on both sides, but for one.
pub proof fn law_a_centered_box_is_in_the_middle(area: Area, width: u16, height: u16, r: Area)
    requires
        area.addressable(),
        call_ensures(centered, (area, width, height), r),
    ensures
        width <= area.width ==> r.width == width,
        width > area.width ==> r.width == area.width,
        height <= area.height ==> r.height == height,
        height > area.height ==> r.height == area.height,
        ({
            let (left, top) = (r.x - area.x, r.y - area.y);
            let right = area.x + area.width - (r.x + r.width);
            let bottom = area.y + area.height - (r.y + r.height);
            &&& 0 <= left <= right <= left + 1
            &&& 0 <= top <= bottom <= top + 1
        }),
{
}

/// The help has room for each of its lines inside its frame, wherever the screen
/// has; the degraded list has a page of its own.
pub proof fn law_the_help_fits_its_lines(
    app: App,
    shown: Vec<String>,
    lines: Vec<String>,
    area: Area,
    r: Area,
    i: int,
)
    requires
        call_ensures(help_lines, (&app,), shown),
        area.addressable(),
        0 <= i < lines.len(),
        call_ensures(help_box, (&lines, area), r),
    ensures
        r.width == area.width || r.width >= lines@[i]@.len() + 4 || r.width == 65535,
        r.height == area.height || r.height == lines.len() + 2 || r.height == 65535,
        r.width <= area.width && r.height <= area.height,
        app.manifest_error is Some ==> texts(shown@) == lines_of(DEGRADED_HELP@),
        app.manifest_error is None ==> texts(shown@) == lines_of(HELP@),
{
    let all = texts(lines@);
    assert(all[i] == lines@[i]@);
    lemma_widest(all, i);
}

proof fn lemma_widest(lines: Seq<Seq<char>>, i: int)
    requires
        0 <= i < lines.len(),
    ensures
        lines[i].len() <= widest(lines),
    decreases lines.len(),
{
    if i < lines.len() - 1 {
        lemma_widest(lines.drop_last(), i);
    }
}

/// At rest the panel has a row for each line of the offer or of the entry, and its
/// borders; a report gets what the screen leaves, nine to sixteen rows.
pub proof fn law_the_panel_takes_what_it_needs(
    app: App,
    screen: u16,
    rest: u16,
    r: u16,
    row: Option<&Row>,
)
    requires
        call_ensures(App::selected_row, (&app,), row),
        call_ensures(resting_details_height, (&app,), rest),
        call_ensures(details_height, (&app, screen), r),
    ensures
        app.build_report is None ==> r == rest,
        app.build_report is Some ==> 9 <= r <= 16 && (20 <= screen <= 27 ==> r == screen - 11),
        app.downgrade_choice is Some && app.downgrade_choice->0.versions.len() <= 9 ==> rest
            == app.downgrade_choice->0.versions.len() + 2 + (if app.downgrade_choice->0.older > 0 {
            1int
        } else {
            0
        }),
        app.downgrade_choice is None && row is None ==> rest == 8,
        app.downgrade_choice is None && row is Some && row->0.also.len() <= 2 ==> rest == 8
            + row->0.also.len(),
        app.downgrade_choice is None && row is Some && row->0.also.len() > 2 ==> rest == 10,
{
}

/// A padded text is the text and then spaces, as wide as asked or as wide as it
/// is.
pub proof fn law_padding_adds_spaces(text: Seq<char>, width: int)
    ensures
        padded(text, width).len() == if text.len() >= width {
            text.len() as int
        } else {
            width
        },
        padded(text, width).take(text.len() as int) == text,
        forall|i: int| text.len() <= i < padded(text, width).len() ==> #[trigger] padded(
            text,
            width,
        )[i] == ' ',
{
    assert(padded(text, width).take(text.len() as int) =~= text);
}

/// The details name their facts, each name in a column of ten.
pub proof fn law_the_details_name_their_facts(row: Row, r: Vec<TextLine>, i: int)
    requires
        call_ensures(detail_lines, (&row,), r),
        0 <= i < r.len(),
    ensures
        r@[i]@[0].text@ == padded(
            if i == 0 {
                "Crate"@
            } else if i == 1 {
                "Installed"@
            } else if i == 2 {
                "Latest"@
            } else if i == 3 {
                "Binaries"@
            } else if i == 4 {
                "Locked"@
            } else if i == 5 {
                "Pinned"@
            } else {
                "Also in"@
            },
            10,
        ),
{
    let view = lines_view(r@);
    assert(view.len() == r.len());
    assert(view[i] == line_view(r@[i]@));
    assert(details_of(row)[i].len() == 2);
    assert(view[i][0].text == r@[i]@[0].text@);
}

/// Hits stand in columns: no name is wider than the column of names, each is
/// padded to it, and its version stands behind it.
pub proof fn law_hits_stand_in_columns(app: App, r: Panel, i: int, k: int)
    requires
        app.downgrade_choice is None,
        app.search_result is Some,
        call_ensures(details_panel, (&app,), r),
        0 <= i < app.search_result->0.hits.len(),
    ensures
        r.lines@[i]@[1].text@ == padded(
            app.search_result->0.hits@[i].name@,
            name_width(app.search_result->0.hits@),
        ) + "  "@ + app.search_result->0.hits@[i].version@ + "  "@,
{
    let view = lines_view(r.lines@);
    assert(view.len() == r.lines.len());
    assert(view[i] == line_view(r.lines@[i]@));
    let found = app.search_result->0;
    assert(view[i] == hit_line(found, i));
    assert(view[i][1].text == r.lines@[i]@[1].text@);
}

} // verus!

use vstd::prelude::*;
use crate::text::push_char;

verus! {

/// The state of one file in a working tree, as a set of flags.
#[derive(Clone, Copy)]
pub struct StatusFlags {
    pub index_new: bool,
    pub index_modified: bool,
    pub index_deleted: bool,
    pub index_renamed: bool,
    pub wt_new: bool,
    pub wt_modified: bool,
    pub wt_deleted: bool,
    pub wt_renamed: bool,
    pub conflicted: bool,
    pub ignored: bool,
}

/// One file of a status listing; `path` is `None` when the file's path
/// is not valid text.
pub struct StatusEntry {
    pub flags: StatusFlags,
    pub path: Option<String>,
}

/// The sections of a status report, in the order they are shown.
#[derive(PartialEq, Eq, Structural, Clone, Copy)]
pub enum Section {
    Untracked,
    Added,
    Modified,
    Renamed,
    Deleted,
    Conflicted,
    Ignored,
}

/// The order in which sections are shown.
pub open spec fn section_order() -> Seq<Section> {
    seq![
        Section::Untracked,
        Section::Added,
        Section::Modified,
        Section::Renamed,
        Section::Deleted,
        Section::Conflicted,
        Section::Ignored,
    ]
}

/// Whether the file has a change staged in the index.
pub open spec fn staged(f: StatusFlags) -> bool {
    f.index_new || f.index_modified || f.index_deleted || f.index_renamed
}

/// The one section a file is counted in: staged changes first, then
/// working-tree modifications, deletions, new files, conflicts, renames
/// and finally ignored files.
pub open spec fn classify(f: StatusFlags) -> Option<Section> {
    if staged(f) {
        Some(Section::Added)
    } else if f.wt_modified {
        Some(Section::Modified)
    } else if f.wt_deleted {
        Some(Section::Deleted)
    } else if f.wt_new {
        Some(Section::Untracked)
    } else if f.conflicted {
        Some(Section::Conflicted)
    } else if f.wt_renamed {
        Some(Section::Renamed)
    } else if f.ignored {
        Some(Section::Ignored)
    } else {
        None
    }
}

/// Whether a file is listed under a section (a file may be listed under
/// more than the one section it is counted in).
pub open spec fn listed_in(s: Section, f: StatusFlags) -> bool {
    match s {
        Section::Untracked => f.wt_new,
        Section::Added => staged(f),
        Section::Modified => f.wt_modified,
        Section::Renamed => f.wt_renamed,
        Section::Deleted => f.wt_deleted,
        Section::Conflicted => f.conflicted,
        Section::Ignored => f.ignored,
    }
}

/// The text shown for a file.
pub open spec fn path_text(e: StatusEntry) -> Seq<char> {
    match e.path {
        Some(p) => p@,
        None => "{unknown}"@,
    }
}

/// How many files are counted in section `s`.
pub open spec fn count_in(entries: Seq<StatusEntry>, s: Section) -> nat
    decreases entries.len(),
{
    if entries.len() == 0 {
        0
    } else {
        count_in(entries.drop_last(), s) + if classify(entries.last().flags) == Some(s) {
            1nat
        } else {
            0nat
        }
    }
}

/// The texts of the files listed under section `s`, in listing order.
pub open spec fn listed_paths(entries: Seq<StatusEntry>, s: Section) -> Seq<Seq<char>>
    decreases entries.len(),
{
    if entries.len() == 0 {
        Seq::empty()
    } else {
        let rest = listed_paths(entries.drop_last(), s);
        if listed_in(s, entries.last().flags) {
            rest.push(path_text(entries.last()))
        } else {
            rest
        }
    }
}

/// `items` joined with `sep` between neighbours.
pub open spec fn join(items: Seq<Seq<char>>, sep: Seq<char>) -> Seq<char>
    decreases items.len(),
{
    if items.len() == 0 {
        Seq::empty()
    } else if items.len() == 1 {
        items[0]
    } else {
        join(items.drop_last(), sep) + sep + items.last()
    }
}

/// Whether nothing but ignored files (if any) shows up.
pub open spec fn up_to_date(entries: Seq<StatusEntry>) -> bool {
    forall|i: int|
        0 <= i < section_order().len() - 1 ==> count_in(entries, #[trigger] section_order()[i])
            == 0
}

/// The sections of `order` with a file counted in them, in order.
pub open spec fn sections_with_files(order: Seq<Section>, entries: Seq<StatusEntry>) -> Seq<
    Section,
>
    decreases order.len(),
{
    if order.len() == 0 {
        Seq::empty()
    } else {
        let rest = sections_with_files(order.drop_last(), entries);
        if count_in(entries, order.last()) > 0 {
            rest.push(order.last())
        } else {
            rest
        }
    }
}

/// The sections that are shown, in order: those with a file counted in them.
pub open spec fn shown_sections(entries: Seq<StatusEntry>) -> Seq<Section> {
    sections_with_files(section_order(), entries)
}

/// The lines shown under a section: one line per listed file, or for
/// ignored files a single line with all of them separated by ", ".
pub open spec fn section_lines(entries: Seq<StatusEntry>, s: Section) -> Seq<Seq<char>> {
    if s == Section::Ignored {
        seq![join(listed_paths(entries, s), ", "@)]
    } else {
        listed_paths(entries, s)
    }
}

/// One section of a report: a blank line goes before it when
/// `blank_before` holds, then its header, then its lines.
pub struct ReportSection {
    pub section: Section,
    pub blank_before: bool,
    pub lines: Vec<String>,
}

/// A status report.
pub enum Report {
    /// Nothing to show but ignored files.
    UpToDate,
    /// The sections to show, in order.
    Changes(Vec<ReportSection>),
}

/// The report for `entries`: up to date, or each shown section in order,
/// with a blank line before the untracked section and before every
/// section after the first.
pub open spec fn report_matches(entries: Seq<StatusEntry>, r: Report) -> bool {
    match r {
        Report::UpToDate => up_to_date(entries),
        Report::Changes(v) => {
            let shown = shown_sections(entries);
            &&& !up_to_date(entries)
            &&& v.len() == shown.len()
            &&& forall|i: int|
                0 <= i < v.len() ==> {
                    &&& (#[trigger] v[i]).section == shown[i]
                    &&& v[i].blank_before == (shown[i] == Section::Untracked || i > 0)
                    &&& v[i].lines.deep_view() == section_lines(entries, shown[i])
                }
        },
    }
}

/// Where the repository's HEAD points.
pub enum HeadState {
    /// At the branch of this name.
    Branch(String),
    /// At a branch whose name is not valid text.
    UnnamedBranch,
    /// Not at a branch.
    Detached,
}

/// Where HEAD points, from whether it is a branch and its short name.
pub fn head_state(is_branch: bool, shorthand: Option<String>) -> (r: HeadState)
    ensures
        is_branch && shorthand is Some ==> (r matches HeadState::Branch(n) && n
            == shorthand->0),
        is_branch && shorthand is None ==> r is UnnamedBranch,
        !is_branch ==> r is Detached,
{
    if is_branch {
        match shorthand {
            Some(name) => HeadState::Branch(name),
            None => HeadState::UnnamedBranch,
        }
    } else {
        HeadState::Detached
    }
}

/// The section a file is counted in, if any.
pub fn classify_entry(f: &StatusFlags) -> (r: Option<Section>)
    ensures
        r == classify(*f),
{
    if f.index_new || f.index_modified || f.index_deleted || f.index_renamed {
        Some(Section::Added)
    } else if f.wt_modified {
        Some(Section::Modified)
    } else if f.wt_deleted {
        Some(Section::Deleted)
    } else if f.wt_new {
        Some(Section::Untracked)
    } else if f.conflicted {
        Some(Section::Conflicted)
    } else if f.wt_renamed {
        Some(Section::Renamed)
    } else if f.ignored {
        Some(Section::Ignored)
    } else {
        None
    }
}

/// Whether a file is listed under section `s`.
pub fn is_listed_in(s: Section, f: &StatusFlags) -> (r: bool)
    ensures
        r == listed_in(s, *f),
{
    match s {
        Section::Untracked => f.wt_new,
        Section::Added => f.index_new || f.index_modified || f.index_deleted || f.index_renamed,
        Section::Modified => f.wt_modified,
        Section::Renamed => f.wt_renamed,
        Section::Deleted => f.wt_deleted,
        Section::Conflicted => f.conflicted,
        Section::Ignored => f.ignored,
    }
}

/// The text shown for a file: its path, or `{unknown}`.
pub fn display_path(e: &StatusEntry) -> (r: String)
    ensures
        r@ == path_text(*e),
{
    match &e.path {
        Some(p) => p.clone(),
        None => String::from_str("{unknown}"),
    }
}

/// How many files are counted in section `s`.
pub fn count_section(entries: &Vec<StatusEntry>, s: Section) -> (r: usize)
    ensures
        r == count_in(entries@, s),
{
    let n = entries.len();
    let mut count: usize = 0;
    let mut i: usize = 0;
    while i < n
        invariant
            n == entries.len(),
            i <= n,
            count == count_in(entries@.take(i as int), s),
            count <= i,
        decreases n - i,
    {
        assert(entries@.take(i + 1).drop_last() =~= entries@.take(i as int));
        if classify_entry(&entries[i].flags) == Some(s) {
            count = count + 1;
        }
        i = i + 1;
    }
    assert(entries@.take(n as int) =~= entries@);
    count
}

/// The texts of the files listed under section `s`, in order.
pub fn list_section(entries: &Vec<StatusEntry>, s: Section) -> (r: Vec<String>)
    ensures
        r.deep_view() == listed_paths(entries@, s),
{
    let n = entries.len();
    let mut lines: Vec<String> = Vec::new();
    let mut i: usize = 0;
    while i < n
        invariant
            n == entries.len(),
            i <= n,
            lines.deep_view() == listed_paths(entries@.take(i as int), s),
        decreases n - i,
    {
        assert(entries@.take(i + 1).drop_last() =~= entries@.take(i as int));
        if is_listed_in(s, &entries[i].flags) {
            let ghost before = lines.deep_view();
            lines.push(display_path(&entries[i]));
            assert(lines.deep_view() =~= before.push(path_text(entries@[i as int])));
        }
        i = i + 1;
    }
    assert(entries@.take(n as int) =~= entries@);
    lines
}

/// `items` joined with `sep` between neighbours.
pub fn join_with(items: &Vec<String>, sep: &str) -> (r: String)
    ensures
        r@ == join(items.deep_view(), sep@),
{
    let ghost all = items.deep_view();
    let n = items.len();
    if n == 0 {
        return String::new();
    }
    let mut out = items[0].clone();
    assert(all.take(1) =~= seq![all[0]]);
    let mut i: usize = 1;
    while i < n
        invariant
            n == items.len(),
            all == items.deep_view(),
            1 <= i <= n,
            out@ == join(all.take(i as int), sep@),
        decreases n - i,
    {
        assert(all.take(i + 1).drop_last() =~= all.take(i as int));
        assert(all.take(i + 1).last() == items[i as int]@);
        out.append(sep);
        out.append(items[i].as_str());
        i = i + 1;
    }
    assert(all.take(n as int) =~= all);
    out
}

/// The lines shown under section `s`.
pub fn lines_of_section(entries: &Vec<StatusEntry>, s: Section) -> (r: Vec<String>)
    ensures
        r.deep_view() == section_lines(entries@, s),
{
    let listed = list_section(entries, s);
    if s == Section::Ignored {
        let joined = join_with(&listed, ", ");
        let r = vec![joined];
        assert(r.deep_view() =~= section_lines(entries@, s));
        r
    } else {
        listed
    }
}

/// Builds the status report for `entries`.
pub fn build_report(entries: &Vec<StatusEntry>) -> (r: Report)
    ensures
        report_matches(entries@, r),
{
    let order: Vec<Section> = vec![
        Section::Untracked,
        Section::Added,
        Section::Modified,
        Section::Renamed,
        Section::Deleted,
        Section::Conflicted,
        Section::Ignored,
    ];
    let ghost ord = section_order();
    assert(order@ =~= ord);
    assert(ord.len() == 7);
    let mut k: usize = 0;
    let mut quiet = true;
    while k < 6
        invariant
            k <= 6,
            order@ == ord,
            ord.len() == 7,
            quiet == forall|i: int| 0 <= i < k ==> count_in(entries@, #[trigger] ord[i]) == 0,
        decreases 6 - k,
    {
        if count_section(entries, order[k]) > 0 {
            quiet = false;
        }
        k = k + 1;
    }
    if quiet {
        return Report::UpToDate;
    }
    let mut sections: Vec<ReportSection> = Vec::new();
    let mut k: usize = 0;
    while k < 7
        invariant
            k <= 7,
            order@ == ord,
            ord.len() == 7,
            sections.len() == sections_with_files(ord.take(k as int), entries@).len(),
            forall|i: int|
                0 <= i < sections.len() ==> {
                    let shown = sections_with_files(ord.take(k as int), entries@);
                    &&& (#[trigger] sections@[i]).section == shown[i]
                    &&& sections@[i].blank_before == (shown[i] == Section::Untracked || i > 0)
                    &&& sections@[i].lines.deep_view() == section_lines(entries@, shown[i])
                },
        decreases 7 - k,
    {
        let s = order[k];
        assert(ord.take(k + 1).drop_last() =~= ord.take(k as int));
        assert(ord.take(k + 1).last() == s);
        if count_section(entries, s) > 0 {
            let lines = lines_of_section(entries, s);
            let blank_before = s == Section::Untracked || sections.len() > 0;
            sections.push(ReportSection { section: s, blank_before, lines });
        }
        k = k + 1;
    }
    assert(ord.take(7) =~= ord);
    Report::Changes(sections)
}

/// No file is counted in a section exactly when no file is classified
/// into it.
proof fn lemma_count_zero(entries: Seq<StatusEntry>, s: Section)
    ensures
        count_in(entries, s) == 0 <==> forall|i: int|
            0 <= i < entries.len() ==> classify(#[trigger] entries[i].flags) != Some(s),
    decreases entries.len(),
{
    if entries.len() > 0 {
        let rest = entries.drop_last();
        lemma_count_zero(rest, s);
        if count_in(entries, s) == 0 {
            assert forall|i: int| 0 <= i < entries.len() implies classify(
                #[trigger] entries[i].flags,
            ) != Some(s) by {
                if i < rest.len() {
                    assert(rest[i] == entries[i]);
                }
            }
        } else {
            if classify(entries.last().flags) != Some(s) {
                let i = choose|i: int|
                    0 <= i < rest.len() && classify(#[trigger] rest[i].flags) == Some(s);
                assert(entries[i] == rest[i]);
            }
        }
    }
}

/// Every file is listed under the section it is counted in.
pub proof fn law_counted_file_is_listed(entries: Seq<StatusEntry>, i: int, s: Section)
    requires
        0 <= i < entries.len(),
        classify(entries[i].flags) == Some(s),
    ensures
        listed_in(s, entries[i].flags),
        listed_paths(entries, s).contains(path_text(entries[i])),
    decreases entries.len(),
{
    let rest = entries.drop_last();
    let lp = listed_paths(rest, s);
    if i < rest.len() {
        assert(rest[i] == entries[i]);
        law_counted_file_is_listed(rest, i, s);
        let k = choose|k: int| 0 <= k < lp.len() && lp[k] == path_text(entries[i]);
        if listed_in(s, entries.last().flags) {
            assert(lp.push(path_text(entries.last()))[k] == path_text(entries[i]));
        }
    } else {
        assert(lp.push(path_text(entries.last()))[lp.len() as int] == path_text(entries[i]));
    }
}

/// The report says "up to date" exactly when every file is either
/// ignored or has no change at all.
pub proof fn law_up_to_date_iff_only_ignored(entries: Seq<StatusEntry>)
    ensures
        up_to_date(entries) <==> forall|i: int|
            0 <= i < entries.len() ==> {
                let c = classify(#[trigger] entries[i].flags);
                c is None || c == Some(Section::Ignored)
            },
{
    let ord = section_order();
    assert forall|k: int| 0 <= k < 6 implies (count_in(entries, #[trigger] ord[k]) == 0
        <==> forall|i: int|
        0 <= i < entries.len() ==> classify(#[trigger] entries[i].flags) != Some(ord[k])) by {
        lemma_count_zero(entries, ord[k]);
    }
    if up_to_date(entries) {
        assert forall|i: int| 0 <= i < entries.len() implies {
            let c = classify(#[trigger] entries[i].flags);
            c is None || c == Some(Section::Ignored)
        } by {
            let c = classify(entries[i].flags);
            if c is Some && c != Some(Section::Ignored) {
                let s = c->0;
                let k: int = if s == Section::Untracked {
                    0
                } else if s == Section::Added {
                    1
                } else if s == Section::Modified {
                    2
                } else if s == Section::Renamed {
                    3
                } else if s == Section::Deleted {
                    4
                } else {
                    5
                };
                assert(ord[k] == s);
                assert(count_in(entries, ord[k]) == 0);
            }
        }
    } else {
        let k = choose|k: int| 0 <= k < ord.len() - 1 && count_in(entries, #[trigger] ord[k]) != 0;
        assert(ord[k] != Section::Ignored);
    }
}

/// The terminal colours used in a status report.
#[derive(Clone, Copy)]
pub enum Paint {
    RedFg,
    GreenFg,
    YellowFg,
    BlueFg,
    WhiteFg,
    BlackBg,
    WhiteBg,
}

/// The escape sequence that starts a colour.
pub open spec fn paint_code(p: Paint) -> Seq<char> {
    match p {
        Paint::RedFg => "\x1b[31m"@,
        Paint::GreenFg => "\x1b[32m"@,
        Paint::YellowFg => "\x1b[33m"@,
        Paint::BlueFg => "\x1b[34m"@,
        Paint::WhiteFg => "\x1b[37m"@,
        Paint::BlackBg => "\x1b[40m"@,
        Paint::WhiteBg => "\x1b[47m"@,
    }
}

/// `text` in colour `p`, followed by the reset sequence.
pub open spec fn painted(p: Paint, text: Seq<char>) -> Seq<char> {
    paint_code(p) + text + "\x1b[0m"@
}

/// `colorized::colorize_this` (what `colorized`'s `.color(..)` calls):
/// the colour's escape sequence, the text, then the reset sequence.
#[verifier::external_body]
fn colorize(text: &str, p: Paint) -> (r: String)
    ensures
        r@ == painted(p, text@),
{
    let c = match p {
        Paint::RedFg => colorized::Colors::RedFg,
        Paint::GreenFg => colorized::Colors::GreenFg,
        Paint::YellowFg => colorized::Colors::YellowFg,
        Paint::BlueFg => colorized::Colors::BlueFg,
        Paint::WhiteFg => colorized::Colors::WhiteFg,
        Paint::BlackBg => colorized::Colors::BlackBg,
        Paint::WhiteBg => colorized::Colors::WhiteBg,
    };
    colorized::colorize_this(text, c)
}

/// The coloured header of a section.
pub open spec fn header_text(s: Section) -> Seq<char> {
    match s {
        Section::Untracked => painted(Paint::RedFg, "untracked\\"@),
        Section::Added => painted(Paint::GreenFg, "Added\\"@),
        Section::Modified => painted(Paint::BlueFg, painted(Paint::WhiteBg, "Modified\\"@)),
        Section::Renamed => painted(Paint::YellowFg, painted(Paint::WhiteBg, "Renamed\\"@)),
        Section::Deleted => painted(Paint::RedFg, painted(Paint::BlackBg, "Deleted\\"@)),
        Section::Conflicted => painted(Paint::WhiteFg, painted(Paint::BlackBg, "Conflicted\\"@)),
        Section::Ignored => painted(Paint::GreenFg, painted(Paint::BlackBg, "Ignored\\"@)),
    }
}

/// The coloured header of section `s`.
pub fn section_header(s: Section) -> (r: String)
    ensures
        r@ == header_text(s),
{
    match s {
        Section::Untracked => colorize("untracked\\", Paint::RedFg),
        Section::Added => colorize("Added\\", Paint::GreenFg),
        Section::Modified => {
            let inner = colorize("Modified\\", Paint::WhiteBg);
            colorize(inner.as_str(), Paint::BlueFg)
        },
        Section::Renamed => {
            let inner = colorize("Renamed\\", Paint::WhiteBg);
            colorize(inner.as_str(), Paint::YellowFg)
        },
        Section::Deleted => {
            let inner = colorize("Deleted\\", Paint::BlackBg);
            colorize(inner.as_str(), Paint::RedFg)
        },
        Section::Conflicted => {
            let inner = colorize("Conflicted\\", Paint::BlackBg);
            colorize(inner.as_str(), Paint::WhiteFg)
        },
        Section::Ignored => {
            let inner = colorize("Ignored\\", Paint::BlackBg);
            colorize(inner.as_str(), Paint::GreenFg)
        },
    }
}

/// The line saying where HEAD points.
pub open spec fn head_text(h: HeadState) -> Seq<char> {
    match h {
        HeadState::Branch(name) => "on branch: "@ + painted(Paint::GreenFg, name@),
        HeadState::UnnamedBranch => "HEAD is not pointing to any branch."@,
        HeadState::Detached => "HEAD is detached."@,
    }
}

/// The line saying where HEAD points.
pub fn head_line(h: &HeadState) -> (r: String)
    ensures
        r@ == head_text(*h),
{
    match h {
        HeadState::Branch(name) => {
            let mut line = String::from_str("on branch: ");
            let colored = colorize(name.as_str(), Paint::GreenFg);
            line.append(colored.as_str());
            line
        },
        HeadState::UnnamedBranch => String::from_str("HEAD is not pointing to any branch."),
        HeadState::Detached => String::from_str("HEAD is detached."),
    }
}

/// The lines of listed files, each indented by four spaces.
pub open spec fn indented(lines: Seq<Seq<char>>) -> Seq<Seq<char>> {
    lines.map_values(|l: Seq<char>| "    "@ + l)
}

/// The printed lines of report sections: for each, an empty line when
/// one goes before it, its header, then its indented lines.
pub open spec fn rendered_sections(sections: Seq<ReportSection>) -> Seq<Seq<char>>
    decreases sections.len(),
{
    if sections.len() == 0 {
        Seq::empty()
    } else {
        let last = sections.last();
        rendered_sections(sections.drop_last()) + (if last.blank_before {
            seq![Seq::<char>::empty()]
        } else {
            Seq::empty()
        }) + seq![header_text(last.section)] + indented(last.lines.deep_view())
    }
}

/// The printed lines of a report.
pub open spec fn rendered(r: Report) -> Seq<Seq<char>> {
    match r {
        Report::UpToDate => seq![painted(Paint::BlueFg, "up-to-date."@)],
        Report::Changes(v) => rendered_sections(v@),
    }
}

/// The lines to print for a report.
pub fn render_report(r: &Report) -> (out: Vec<String>)
    ensures
        out.deep_view() == rendered(*r),
{
    match r {
        Report::UpToDate => {
            let v = vec![colorize("up-to-date.", Paint::BlueFg)];
            assert(v.deep_view() =~= rendered(*r));
            v
        },
        Report::Changes(sections) => {
            let mut out: Vec<String> = Vec::new();
            let n = sections.len();
            let mut i: usize = 0;
            while i < n
                invariant
                    n == sections.len(),
                    i <= n,
                    out.deep_view() == rendered_sections(sections@.take(i as int)),
                decreases n - i,
            {
                assert(sections@.take(i + 1).drop_last() =~= sections@.take(i as int));
                let ghost before = out.deep_view();
                let sec = &sections[i];
                if sec.blank_before {
                    out.push(String::new());
                }
                let ghost mid = out.deep_view();
                out.push(section_header(sec.section));
                let ghost start = out.deep_view();
                let m = sec.lines.len();
                let mut j: usize = 0;
                while j < m
                    invariant
                        m == sec.lines.len(),
                        j <= m,
                        out.deep_view() == start + indented(sec.lines.deep_view().take(j as int)),
                    decreases m - j,
                {
                    let ghost prev = out.deep_view();
                    let mut line = String::from_str("    ");
                    line.append(sec.lines[j].as_str());
                    out.push(line);
                    assert(indented(sec.lines.deep_view().take(j + 1)) =~= indented(
                        sec.lines.deep_view().take(j as int),
                    ).push("    "@ + sec.lines[j as int]@));
                    assert(out.deep_view() =~= prev.push(line@));
                    j = j + 1;
                }
                assert(sec.lines.deep_view().take(m as int) =~= sec.lines.deep_view());
                assert(sections@.take(i + 1).last() == *sec);
                assert(out.deep_view() =~= rendered_sections(sections@.take(i + 1)));
                i = i + 1;
            }
            assert(sections@.take(n as int) =~= sections@);
            out
        },
    }
}

/// A file with any change staged in the index (new, modified, deleted or
/// renamed there) is counted under "Added", whatever its working tree
/// shows; a file with no flag at all is counted nowhere.
pub proof fn law_staged_file_is_added(f: StatusFlags)
    ensures
        f.index_new ==> classify(f) == Some(Section::Added),
        f.index_modified ==> classify(f) == Some(Section::Added),
        f.index_deleted ==> classify(f) == Some(Section::Added),
        f.index_renamed ==> classify(f) == Some(Section::Added),
        classify(f) == Some(Section::Added) ==> f.index_new || f.index_modified
            || f.index_deleted || f.index_renamed,
        !f.index_new && !f.index_modified && !f.index_deleted && !f.index_renamed && !f.wt_new
            && !f.wt_modified && !f.wt_deleted && !f.wt_renamed && !f.conflicted && !f.ignored
            ==> classify(f) is None,
{
}

/// A listing that holds a file with a staged change is never reported up
/// to date: the report shows an "Added" section listing that file.
pub proof fn law_staged_change_is_reported(entries: Seq<StatusEntry>, i: int)
    requires
        0 <= i < entries.len(),
        entries[i].flags.index_new || entries[i].flags.index_modified
            || entries[i].flags.index_deleted || entries[i].flags.index_renamed,
    ensures
        !up_to_date(entries),
        count_in(entries, Section::Added) > 0,
        listed_paths(entries, Section::Added).contains(path_text(entries[i])),
{
    law_staged_file_is_added(entries[i].flags);
    law_up_to_date_iff_only_ignored(entries);
    lemma_count_zero(entries, Section::Added);
    law_counted_file_is_listed(entries, i, Section::Added);
}

/// Without a staged change, a file is counted by the first that holds of:
/// modified, deleted, new, conflicted, renamed (all in the working tree),
/// ignored.
pub proof fn law_unstaged_file_priority(f: StatusFlags)
    requires
        !f.index_new && !f.index_modified && !f.index_deleted && !f.index_renamed,
    ensures
        f.wt_modified ==> classify(f) == Some(Section::Modified),
        !f.wt_modified && f.wt_deleted ==> classify(f) == Some(Section::Deleted),
        !f.wt_modified && !f.wt_deleted && f.wt_new ==> classify(f) == Some(Section::Untracked),
        !f.wt_modified && !f.wt_deleted && !f.wt_new && f.conflicted ==> classify(f) == Some(
            Section::Conflicted,
        ),
        !f.wt_modified && !f.wt_deleted && !f.wt_new && !f.conflicted && f.wt_renamed
            ==> classify(f) == Some(Section::Renamed),
        !f.wt_modified && !f.wt_deleted && !f.wt_new && !f.conflicted && !f.wt_renamed
            && f.ignored ==> classify(f) == Some(Section::Ignored),
{
}

} // verus!

//! Pure logic of the filesystem capabilities: rendering a directory
//! listing sorted lexicographically, the read and write reports, the
//! metadata report, and the uniform error taxonomy around the OS calls.
//! The OS calls themselves (listing, reading, writing, stat) live outside
//! the library and hand plain values in.

use vstd::prelude::*;
use vstd::seq_lib::lemma_multiset_commutative;
use vstd::seq_lib::group_to_multiset_ensures;
use vstd::multiset::group_multiset_axioms;

verus! {

/// Model of one directory entry.
pub ghost struct EntryView {
    pub name: Seq<char>,
    pub is_dir: bool,
}

/// One directory entry: its name, tagged as directory or file.
#[derive(Debug)]
pub struct EntryInfo {
    pub name: String,
    pub is_dir: bool,
}

impl View for EntryInfo {
    type V = EntryView;

    open spec fn view(&self) -> EntryView {
        EntryView { name: self.name@, is_dir: self.is_dir }
    }
}

/// Lexicographic order on texts, by character code point.
pub open spec fn lex_le(a: Seq<char>, b: Seq<char>) -> bool
    decreases a.len(),
{
    if a.len() == 0 {
        true
    } else if b.len() == 0 {
        false
    } else if a[0] == b[0] {
        lex_le(a.drop_first(), b.drop_first())
    } else {
        (a[0] as int) < (b[0] as int)
    }
}

/// The order is total.
pub proof fn lemma_lex_le_total(a: Seq<char>, b: Seq<char>)
    ensures
        lex_le(a, b) || lex_le(b, a),
    decreases a.len(),
{
    if a.len() > 0 && b.len() > 0 && a[0] == b[0] {
        lemma_lex_le_total(a.drop_first(), b.drop_first());
    }
}

/// The order is transitive.
pub proof fn lemma_lex_le_trans(a: Seq<char>, b: Seq<char>, c: Seq<char>)
    requires
        lex_le(a, b),
        lex_le(b, c),
    ensures
        lex_le(a, c),
    decreases a.len(),
{
    if a.len() > 0 && b.len() > 0 && c.len() > 0 && a[0] == b[0] && b[0] == c[0] {
        lemma_lex_le_trans(a.drop_first(), b.drop_first(), c.drop_first());
    }
}

/// Lexicographic comparison of two texts.
pub fn str_lex_le(a: &str, b: &str) -> (r: bool)
    ensures
        r == lex_le(a@, b@),
{
    let na: usize = a.unicode_len();
    let nb: usize = b.unicode_len();
    let mut i: usize = 0;
    proof {
        assert(a@.skip(0) =~= a@);
        assert(b@.skip(0) =~= b@);
    }
    loop
        invariant
            na == a@.len(),
            nb == b@.len(),
            i <= na,
            i <= nb,
            lex_le(a@, b@) == lex_le(a@.skip(i as int), b@.skip(i as int)),
        decreases na - i,
    {
        proof {
            assert(a@.skip(i as int).len() == na - i);
            assert(b@.skip(i as int).len() == nb - i);
        }
        if i >= na {
            return true;
        }
        if i >= nb {
            return false;
        }
        let ca = a.get_char(i);
        let cb = b.get_char(i);
        proof {
            assert(a@.skip(i as int)[0] == a@[i as int]);
            assert(b@.skip(i as int)[0] == b@[i as int]);
        }
        if ca == cb {
            proof {
                assert(a@.skip(i as int).drop_first() =~= a@.skip(i as int + 1));
                assert(b@.skip(i as int).drop_first() =~= b@.skip(i as int + 1));
            }
            i += 1;
        } else {
            return (ca as u32) < (cb as u32);
        }
    }
}

/// Insert an entry into a run of entries sorted by name, after any entries
/// whose names do not come after it.
pub open spec fn insert_sorted(e: EntryView, s: Seq<EntryView>) -> Seq<EntryView>
    decreases s.len(),
{
    if s.len() == 0 {
        seq![e]
    } else if lex_le(s[0].name, e.name) {
        seq![s[0]] + insert_sorted(e, s.drop_first())
    } else {
        seq![e] + s
    }
}

/// The entries sorted by name, lexicographically.
pub open spec fn sort_entries(s: Seq<EntryView>) -> Seq<EntryView>
    decreases s.len(),
{
    if s.len() == 0 {
        Seq::empty()
    } else {
        insert_sorted(s[0], sort_entries(s.drop_first()))
    }
}

/// Entries in nondecreasing name order.
pub open spec fn entries_sorted(s: Seq<EntryView>) -> bool {
    forall|i: int, j: int| 0 <= i < j < s.len() ==> lex_le(s[i].name, s[j].name)
}

/// Inserting into a sorted run keeps it sorted, adds exactly the new entry,
/// and invents no entry.
pub proof fn lemma_insert_sorted_properties(e: EntryView, s: Seq<EntryView>)
    requires
        entries_sorted(s),
    ensures
        entries_sorted(insert_sorted(e, s)),
        insert_sorted(e, s).to_multiset() =~= s.to_multiset().insert(e),
        insert_sorted(e, s).len() == s.len() + 1,
        forall|k: int|
            0 <= k < insert_sorted(e, s).len() ==> (#[trigger] insert_sorted(e, s)[k] == e
                || s.contains(insert_sorted(e, s)[k])),
    decreases s.len(),
{
    broadcast use group_to_multiset_ensures;
    broadcast use group_multiset_axioms;

    let r = insert_sorted(e, s);
    if s.len() == 0 {
        assert(seq![e] =~= Seq::<EntryView>::empty().push(e));
        assert(r.to_multiset() =~= s.to_multiset().insert(e));
        assert(r[0] == e);
    } else if lex_le(s[0].name, e.name) {
        let d = s.drop_first();
        assert forall|i: int, j: int| 0 <= i < j < d.len() implies lex_le(
            d[i].name,
            d[j].name,
        ) by {
            assert(d[i] == s[i + 1]);
            assert(d[j] == s[j + 1]);
            assert(lex_le(s[i + 1].name, s[j + 1].name));
        }
        lemma_insert_sorted_properties(e, d);
        let rest = insert_sorted(e, d);
        assert(r =~= seq![s[0]] + rest);
        assert forall|j: int| 1 <= j < r.len() implies lex_le(s[0].name, r[j].name) by {
            assert(r[j] == rest[j - 1]);
            if rest[j - 1] == e {
            } else {
                assert(d.contains(rest[j - 1]));
                let k = choose|k: int| 0 <= k < d.len() && d[k] == rest[j - 1];
                assert(d[k] == s[k + 1]);
                assert(lex_le(s[0].name, s[k + 1].name));
            }
        }
        assert forall|i: int, j: int| 0 <= i < j < r.len() implies lex_le(
            r[i].name,
            r[j].name,
        ) by {
            if i > 0 {
                assert(r[i] == rest[i - 1] && r[j] == rest[j - 1]);
                assert(lex_le(rest[i - 1].name, rest[j - 1].name));
            }
        }
        assert forall|k: int| 0 <= k < r.len() implies (r[k] == e || s.contains(r[k])) by {
            if k == 0 {
                assert(r[0] == s[0]);
                assert(s.contains(s[0]));
            } else {
                assert(r[k] == rest[k - 1]);
                if rest[k - 1] != e {
                    assert(d.contains(rest[k - 1]));
                    let m = choose|m: int| 0 <= m < d.len() && d[m] == rest[k - 1];
                    assert(d[m] == s[m + 1]);
                    assert(s.contains(s[m + 1]));
                }
            }
        }
        lemma_multiset_commutative(seq![s[0]], rest);
        lemma_multiset_commutative(seq![s[0]], d);
        assert(s =~= seq![s[0]] + d);
        assert(r.to_multiset() =~= s.to_multiset().insert(e));
    } else {
        lemma_lex_le_total(s[0].name, e.name);
        assert(lex_le(e.name, s[0].name));
        assert(r =~= seq![e] + s);
        assert forall|i: int, j: int| 0 <= i < j < r.len() implies lex_le(
            r[i].name,
            r[j].name,
        ) by {
            if i == 0 {
                assert(r[0] == e);
                assert(r[j] == s[j - 1]);
                if j == 1 {
                    assert(lex_le(e.name, s[0].name));
                } else {
                    assert(lex_le(s[0].name, s[j - 1].name));
                    lemma_lex_le_trans(e.name, s[0].name, s[j - 1].name);
                }
            } else {
                assert(r[i] == s[i - 1] && r[j] == s[j - 1]);
                assert(lex_le(s[i - 1].name, s[j - 1].name));
            }
        }
        assert forall|k: int| 0 <= k < r.len() implies (r[k] == e || s.contains(r[k])) by {
            if k > 0 {
                assert(r[k] == s[k - 1]);
                assert(s.contains(s[k - 1]));
            }
        }
        lemma_multiset_commutative(seq![e], s);
        assert(seq![e] =~= Seq::<EntryView>::empty().push(e));
        assert(r.to_multiset() =~= s.to_multiset().insert(e));
    }
}

/// Sorting sorts: the result is in nondecreasing name order and is a
/// permutation of the input.
pub proof fn lemma_sort_entries_properties(s: Seq<EntryView>)
    ensures
        entries_sorted(sort_entries(s)),
        sort_entries(s).to_multiset() =~= s.to_multiset(),
        sort_entries(s).len() == s.len(),
    decreases s.len(),
{
    broadcast use group_to_multiset_ensures;
    broadcast use group_multiset_axioms;

    if s.len() > 0 {
        let d = s.drop_first();
        lemma_sort_entries_properties(d);
        lemma_insert_sorted_properties(s[0], sort_entries(d));
        assert(s =~= seq![s[0]] + d);
        lemma_multiset_commutative(seq![s[0]], d);
        assert(seq![s[0]] =~= Seq::<EntryView>::empty().push(s[0]));
        assert(sort_entries(s).to_multiset() =~= s.to_multiset());
    }
}

/// Insert an entry into a vector sorted by name.
fn insert_entry(e: EntryInfo, v: Vec<EntryInfo>) -> (r: Vec<EntryInfo>)
    ensures
        r@.map_values(|x: EntryInfo| x@) == insert_sorted(e@, v@.map_values(|x: EntryInfo| x@)),
    decreases v@.len(),
{
    let ghost vs = v@.map_values(|x: EntryInfo| x@);
    if v.len() == 0 {
        let mut r: Vec<EntryInfo> = Vec::new();
        r.push(e);
        proof {
            assert(r@.map_values(|x: EntryInfo| x@) =~= seq![e@]);
        }
        r
    } else if str_lex_le(v[0].name.as_str(), e.name.as_str()) {
        let mut v = v;
        let first = v.remove(0);
        proof {
            assert(v@.map_values(|x: EntryInfo| x@) =~= vs.drop_first());
        }
        let rest = insert_entry(e, v);
        let mut r: Vec<EntryInfo> = Vec::new();
        r.push(first);
        let mut rest = rest;
        r.append(&mut rest);
        proof {
            assert(r@.map_values(|x: EntryInfo| x@) =~= insert_sorted(e@, vs));
        }
        r
    } else {
        let mut r: Vec<EntryInfo> = Vec::new();
        r.push(e);
        let mut v = v;
        r.append(&mut v);
        proof {
            assert(r@.map_values(|x: EntryInfo| x@) =~= insert_sorted(e@, vs));
        }
        r
    }
}

/// Sort directory entries by name, lexicographically.
pub fn sort_entries_by_name(entries: Vec<EntryInfo>) -> (r: Vec<EntryInfo>)
    ensures
        r@.map_values(|x: EntryInfo| x@) == sort_entries(
            entries@.map_values(|x: EntryInfo| x@),
        ),
    decreases entries@.len(),
{
    let ghost vs = entries@.map_values(|x: EntryInfo| x@);
    if entries.len() == 0 {
        let r: Vec<EntryInfo> = Vec::new();
        proof {
            assert(r@.map_values(|x: EntryInfo| x@) =~= sort_entries(vs));
        }
        r
    } else {
        let mut entries = entries;
        let first = entries.remove(0);
        proof {
            assert(entries@.map_values(|x: EntryInfo| x@) =~= vs.drop_first());
        }
        let sorted_rest = sort_entries_by_name(entries);
        insert_entry(first, sorted_rest)
    }
}

/// The line a listing prints for one entry: its tag and its name.
pub open spec fn entry_line_spec(e: EntryView) -> Seq<char> {
    (if e.is_dir {
        "[DIR] "@
    } else {
        "[FILE] "@
    }) + e.name
}

/// The listing text of a run of entries: one line each, joined by
/// newlines.
pub open spec fn render_entries_spec(s: Seq<EntryView>) -> Seq<char>
    decreases s.len(),
{
    if s.len() == 0 {
        Seq::empty()
    } else if s.len() == 1 {
        entry_line_spec(s[0])
    } else {
        entry_line_spec(s[0]) + seq!['\n'] + render_entries_spec(s.drop_first())
    }
}

/// The fixed payload for a listing of an empty directory.
pub open spec fn empty_directory_message() -> Seq<char> {
    "Directory is empty"@
}

/// The full listing payload: the fixed message for no entries, otherwise
/// the entries sorted by name and rendered one per line.
pub open spec fn listing_spec(s: Seq<EntryView>) -> Seq<char> {
    if s.len() == 0 {
        empty_directory_message()
    } else {
        render_entries_spec(sort_entries(s))
    }
}

/// Appending an entry extends the rendering by a separator and its line.
proof fn lemma_render_entries_push(s: Seq<EntryView>, e: EntryView)
    ensures
        render_entries_spec(s.push(e)) == if s.len() == 0 {
            entry_line_spec(e)
        } else {
            render_entries_spec(s) + seq!['\n'] + entry_line_spec(e)
        },
    decreases s.len(),
{
    let p = s.push(e);
    if s.len() == 0 {
        assert(p.len() == 1 && p[0] == e);
    } else {
        lemma_render_entries_push(s.drop_first(), e);
        assert(p.drop_first() =~= s.drop_first().push(e));
        assert(p[0] == s[0]);
        if s.len() == 1 {
            assert(render_entries_spec(p) == entry_line_spec(s[0]) + seq!['\n']
                + render_entries_spec(p.drop_first()));
        } else {
            assert(render_entries_spec(s) == entry_line_spec(s[0]) + seq!['\n']
                + render_entries_spec(s.drop_first()));
        }
    }
}

/// The line an entry prints.
fn entry_line(e: &EntryInfo) -> (r: String)
    ensures
        r@ == entry_line_spec(e@),
{
    let mut r = String::from_str(if e.is_dir {
        "[DIR] "
    } else {
        "[FILE] "
    });
    r.append(e.name.as_str());
    r
}

/// The listing payload of a directory: its entries sorted by name, one
/// tagged line each, or the fixed message when there are none.
pub fn format_listing(entries: Vec<EntryInfo>) -> (r: String)
    ensures
        r@ == listing_spec(entries@.map_values(|x: EntryInfo| x@)),
{
    let ghost vs = entries@.map_values(|x: EntryInfo| x@);
    if entries.len() == 0 {
        return String::from_str("Directory is empty");
    }
    let sorted = sort_entries_by_name(entries);
    let ghost ss = sort_entries(vs);
    proof {
        lemma_sort_entries_properties(vs);
        assert(sorted@.len() == ss.len());
    }
    let mut out = String::new();
    let mut i: usize = 0;
    while i < sorted.len()
        invariant
            sorted@.map_values(|x: EntryInfo| x@) == ss,
            sorted@.len() == ss.len(),
            0 <= i <= sorted.len(),
            out@ == render_entries_spec(ss.take(i as int)),
        decreases sorted.len() - i,
    {
        let line = entry_line(&sorted[i]);
        if i > 0 {
            out.append("\n");
        }
        out.append(line.as_str());
        proof {
            lemma_render_entries_push(ss.take(i as int), ss[i as int]);
            assert(ss.take(i as int).push(ss[i as int]) =~= ss.take(i as int + 1));
            reveal_strlit("\n");
            assert("\n"@ =~= seq!['\n']);
        }
        i += 1;
    }
    proof {
        assert(ss.take(ss.len() as int) =~= ss);
    }
    out
}

/// The payload of a file read: a header naming the path, then the content.
pub open spec fn read_report_spec(path: Seq<char>, content: Seq<char>) -> Seq<char> {
    "Contents of "@ + path + ":\n"@ + content
}

/// Wrap a file's content with a header naming its path.
pub fn format_read(path: &str, content: &str) -> (r: String)
    ensures
        r@ == read_report_spec(path@, content@),
{
    let mut r = String::from_str("Contents of ");
    r.append(path);
    r.append(":\n");
    r.append(content);
    r
}

/// The decimal digit characters.
pub open spec fn digit_char(d: nat) -> char {
    if d == 0 {
        '0'
    } else if d == 1 {
        '1'
    } else if d == 2 {
        '2'
    } else if d == 3 {
        '3'
    } else if d == 4 {
        '4'
    } else if d == 5 {
        '5'
    } else if d == 6 {
        '6'
    } else if d == 7 {
        '7'
    } else if d == 8 {
        '8'
    } else {
        '9'
    }
}

/// The decimal rendering of a number, most significant digit first.
pub open spec fn dec_spec(n: nat) -> Seq<char>
    decreases n,
{
    if n < 10 {
        seq![digit_char(n)]
    } else {
        dec_spec(n / 10) + seq![digit_char(n % 10)]
    }
}

fn digit_str(d: u64) -> (r: &'static str)
    requires
        d < 10,
    ensures
        r@ == seq![digit_char(d as nat)],
{
    proof {
        reveal_strlit("0");
        reveal_strlit("1");
        reveal_strlit("2");
        reveal_strlit("3");
        reveal_strlit("4");
        reveal_strlit("5");
        reveal_strlit("6");
        reveal_strlit("7");
        reveal_strlit("8");
        reveal_strlit("9");
    }
    if d == 0 {
        "0"
    } else if d == 1 {
        "1"
    } else if d == 2 {
        "2"
    } else if d == 3 {
        "3"
    } else if d == 4 {
        "4"
    } else if d == 5 {
        "5"
    } else if d == 6 {
        "6"
    } else if d == 7 {
        "7"
    } else if d == 8 {
        "8"
    } else {
        "9"
    }
}

/// Render a number in decimal.
pub fn fmt_u64(n: u64) -> (r: String)
    ensures
        r@ == dec_spec(n as nat),
    decreases n,
{
    if n < 10 {
        String::from_str(digit_str(n))
    } else {
        let mut r = fmt_u64(n / 10);
        r.append(digit_str(n % 10));
        r
    }
}

/// The payload of a file write: how many bytes went to which path.
pub open spec fn write_report_spec(path: Seq<char>, byte_count: nat) -> Seq<char> {
    "Successfully wrote "@ + dec_spec(byte_count) + " bytes to "@ + path
}

/// Report a completed write of `byte_count` bytes.
pub fn format_write_report(path: &str, byte_count: u64) -> (r: String)
    ensures
        r@ == write_report_spec(path@, byte_count as nat),
{
    let mut r = String::from_str("Successfully wrote ");
    let digits = fmt_u64(byte_count);
    r.append(digits.as_str());
    r.append(" bytes to ");
    r.append(path);
    r
}

/// Model of a metadata result.
pub ghost struct FileInfoView {
    pub path: Seq<char>,
    pub size: int,
    pub is_file: bool,
    pub is_dir: bool,
    pub modified_secs: Option<int>,
}

/// A metadata result: size, kind flags, and the modification time in
/// seconds since the epoch where the OS can supply it.
#[derive(Debug)]
pub struct FileInfo {
    pub path: String,
    pub size: u64,
    pub is_file: bool,
    pub is_dir: bool,
    pub modified_secs: Option<u64>,
}

impl View for FileInfo {
    type V = FileInfoView;

    open spec fn view(&self) -> FileInfoView {
        FileInfoView {
            path: self.path@,
            size: self.size as int,
            is_file: self.is_file,
            is_dir: self.is_dir,
            modified_secs: match self.modified_secs {
                Some(m) => Some(m as int),
                None => None,
            },
        }
    }
}

/// The word naming a path's kind.
pub open spec fn kind_word_spec(is_file: bool, is_dir: bool) -> Seq<char> {
    if is_file {
        "file"@
    } else if is_dir {
        "directory"@
    } else {
        "other"@
    }
}

/// The payload of a metadata query.
pub open spec fn stat_report_spec(info: FileInfoView) -> Seq<char> {
    "Path: "@ + info.path + "\nSize: "@ + dec_spec(info.size as nat) + " bytes\nType: "@
        + kind_word_spec(info.is_file, info.is_dir) + "\nModified: "@ + (match info.modified_secs {
        Some(m) => dec_spec(m as nat) + " (seconds since epoch)"@,
        None => "unknown"@,
    })
}

/// Render a metadata result as the capability's payload.
pub fn format_file_info(info: &FileInfo) -> (r: String)
    ensures
        r@ == stat_report_spec(info@),
{
    let mut r = String::from_str("Path: ");
    r.append(info.path.as_str());
    r.append("\nSize: ");
    let size_digits = fmt_u64(info.size);
    r.append(size_digits.as_str());
    r.append(" bytes\nType: ");
    r.append(
        if info.is_file {
            "file"
        } else if info.is_dir {
            "directory"
        } else {
            "other"
        },
    );
    r.append("\nModified: ");
    match &info.modified_secs {
        Some(m) => {
            let m_digits = fmt_u64(*m);
            r.append(m_digits.as_str());
            r.append(" (seconds since epoch)");
        },
        None => {
            r.append("unknown");
        },
    }
    r
}

/// Model of the filesystem capabilities' error taxonomy.
pub ghost enum FsErrorView {
    DirectoryReadError { path: Seq<char>, error: Seq<char> },
    FileReadError { path: Seq<char>, error: Seq<char> },
    FileWriteError { path: Seq<char>, error: Seq<char> },
    StatError { path: Seq<char>, error: Seq<char> },
}

/// The filesystem capabilities' error taxonomy: which OS call failed, on
/// which path, with the OS's own words.
#[derive(Debug)]
pub enum FsError {
    DirectoryReadError { path: String, error: String },
    FileReadError { path: String, error: String },
    FileWriteError { path: String, error: String },
    StatError { path: String, error: String },
}

impl View for FsError {
    type V = FsErrorView;

    open spec fn view(&self) -> FsErrorView {
        match self {
            FsError::DirectoryReadError { path, error } => FsErrorView::DirectoryReadError {
                path: path@,
                error: error@,
            },
            FsError::FileReadError { path, error } => FsErrorView::FileReadError {
                path: path@,
                error: error@,
            },
            FsError::FileWriteError { path, error } => FsErrorView::FileWriteError {
                path: path@,
                error: error@,
            },
            FsError::StatError { path, error } => FsErrorView::StatError {
                path: path@,
                error: error@,
            },
        }
    }
}

/// The stable machine-readable code token of each filesystem error.
pub open spec fn fs_error_code_spec(e: FsErrorView) -> Seq<char> {
    match e {
        FsErrorView::DirectoryReadError { .. } => "directory_read_error"@,
        FsErrorView::FileReadError { .. } => "file_read_error"@,
        FsErrorView::FileWriteError { .. } => "file_write_error"@,
        FsErrorView::StatError { .. } => "stat_error"@,
    }
}

impl FsError {
    /// The stable machine-readable code token of this error.
    pub fn error_code(&self) -> (r: String)
        ensures
            r@ == fs_error_code_spec(self@),
    {
        match self {
            FsError::DirectoryReadError { .. } => String::from_str("directory_read_error"),
            FsError::FileReadError { .. } => String::from_str("file_read_error"),
            FsError::FileWriteError { .. } => String::from_str("file_write_error"),
            FsError::StatError { .. } => String::from_str("stat_error"),
        }
    }
}

} // verus!

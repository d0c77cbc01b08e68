//! Bracket detection over the files of a folder.
//!
//! A folder holds one or more bracket sets shot with the same sequence of
//! exposure settings. The files are ordered by path, their exposure settings
//! are read from EXIF data, and the shortest repeating pattern of settings
//! gives the number of brackets per set.

use vstd::prelude::*;

use crate::text::path_less;

verus! {

/// One image file of a folder with the EXIF exposure settings that could be read from it.
#[derive(Debug, Clone)]
pub struct ScannedFile {
    pub path: String,
    pub exposure_time: Option<String>,
    pub f_number: Option<String>,
    pub iso: Option<String>,
}

/// What scanning a folder found.
#[derive(Debug, Clone)]
pub struct ScanResult {
    pub files: Vec<ScannedFile>,
    pub is_raw: bool,
    pub brackets: u32,
    pub sets: u32,
}

/// Exposure time, f-number and ISO of a file whose EXIF data holds all three.
struct ExposureSettings {
    exposure_time: String,
    f_number: String,
    iso: String,
}

/// The exposure settings of a file as text: exposure time, f-number, ISO.
pub type SettingsView = (Seq<char>, Seq<char>, Seq<char>);

impl ExposureSettings {
    spec fn view_settings(&self) -> SettingsView {
        (self.exposure_time@, self.f_number@, self.iso@)
    }
}

/// The settings of `f` when its EXIF data holds exposure time, f-number and ISO.
pub open spec fn settings_of(f: ScannedFile) -> Option<SettingsView> {
    match (f.exposure_time, f.f_number, f.iso) {
        (Some(e), Some(n), Some(i)) => Some((e@, n@, i@)),
        _ => None,
    }
}

/// The settings of the files that hold all three values, in file order.
pub open spec fn settings_sequence(files: Seq<ScannedFile>) -> Seq<SettingsView>
    decreases files.len(),
{
    if files.len() == 0 {
        Seq::empty()
    } else {
        let rest = settings_sequence(files.drop_last());
        match settings_of(files.last()) {
            Some(st) => rest.push(st),
            None => rest,
        }
    }
}

/// `s` is made of whole repetitions of its first `k` elements.
pub open spec fn repeats_with_period<T>(s: Seq<T>, k: int) -> bool {
    &&& 0 < k
    &&& (s.len() as int) % k == 0
    &&& forall|i: int| 0 <= i < s.len() ==> #[trigger] s[i] == s[i % k]
}

/// The number of brackets per set: the number of distinct exposure settings among
/// the files with complete settings, or 1 when there are no files or no file has
/// complete settings.
pub open spec fn is_bracket_count(files: Seq<ScannedFile>, b: int) -> bool {
    let s = settings_sequence(files);
    if files.len() == 0 || s.len() == 0 {
        b == 1
    } else {
        b == s.to_set().len()
    }
}

fn settings_of_file(f: &ScannedFile) -> (r: Option<ExposureSettings>)
    ensures
        match r {
            Some(st) => settings_of(*f) == Some(st.view_settings()),
            None => settings_of(*f) is None,
        },
{
    match (&f.exposure_time, &f.f_number, &f.iso) {
        (Some(e), Some(n), Some(i)) => Some(
            ExposureSettings { exposure_time: e.clone(), f_number: n.clone(), iso: i.clone() },
        ),
        _ => None,
    }
}

fn same_settings(a: &ExposureSettings, b: &ExposureSettings) -> (r: bool)
    ensures
        r == (a.view_settings() == b.view_settings()),
{
    a.exposure_time == b.exposure_time && a.f_number == b.f_number && a.iso == b.iso
}

proof fn lemma_settings_sequence_len(files: Seq<ScannedFile>)
    ensures
        settings_sequence(files).len() <= files.len(),
    decreases files.len(),
{
    if files.len() > 0 {
        lemma_settings_sequence_len(files.drop_last());
    }
}

/// Detects how many brackets each set of `files` holds: the number of distinct
/// exposure settings (exposure time, f-number, ISO) among the files whose EXIF data
/// holds all three.
pub fn detect_brackets(files: &[ScannedFile]) -> (r: u32)
    requires
        files@.len() <= u32::MAX,
    ensures
        is_bracket_count(files@, r as int),
        r >= 1,
{
    if files.len() == 0 {
        return 1;
    }
    let mut settings: Vec<ExposureSettings> = Vec::new();
    let mut idx: usize = 0;
    while idx < files.len()
        invariant
            idx <= files@.len(),
            settings@.len() == settings_sequence(files@.take(idx as int)).len(),
            forall|j: int|
                0 <= j < settings@.len() ==> #[trigger] settings@[j].view_settings()
                    == settings_sequence(files@.take(idx as int))[j],
        decreases files@.len() - idx,
    {
        let ghost prev = files@.take(idx as int);
        assert(files@.take(idx + 1).drop_last() =~= prev);
        assert(files@.take(idx + 1).last() == files@[idx as int]);
        match settings_of_file(&files[idx]) {
            Some(st) => {
                settings.push(st);
            },
            None => {},
        }
        idx = idx + 1;
    }
    assert(files@.take(files@.len() as int) =~= files@);
    let ghost s = settings_sequence(files@);
    proof {
        lemma_settings_sequence_len(files@);
    }
    let len = settings.len();
    if len == 0 {
        return 1;
    }
    // The distinct settings seen so far, in order of first appearance.
    let mut distinct: Vec<usize> = Vec::new();
    let ghost mut u: Seq<SettingsView> = Seq::empty();
    let mut i: usize = 0;
    while i < len
        invariant
            i <= len,
            len == s.len(),
            len <= u32::MAX,
            settings@.len() == len,
            forall|j: int| 0 <= j < len ==> #[trigger] settings@[j].view_settings() == s[j],
            distinct@.len() == u.len(),
            forall|k: int| 0 <= k < u.len() ==> #[trigger] distinct@[k] < len,
            forall|k: int|
                0 <= k < u.len() ==> #[trigger] u[k] == settings@[distinct@[k] as int].view_settings(),
            u.no_duplicates(),
            u.to_set() == s.take(i as int).to_set(),
            u.len() <= i,
            i > 0 ==> u.len() >= 1,
        decreases len - i,
    {
        let mut k: usize = 0;
        let mut found = false;
        while k < distinct.len() && !found
            invariant
                k <= distinct@.len(),
                distinct@.len() == u.len(),
                i < len,
                settings@.len() == len,
                forall|m: int| 0 <= m < u.len() ==> #[trigger] distinct@[m] < len,
                forall|m: int|
                    0 <= m < u.len() ==> #[trigger] u[m] == settings@[distinct@[m] as int].view_settings(),
                found ==> u.contains(settings@[i as int].view_settings()),
                !found ==> forall|m: int| 0 <= m < k ==> u[m] != settings@[i as int].view_settings(),
            decreases distinct@.len() - k + (if found { 0int } else { 1int }),
        {
            let d = distinct[k];
            if same_settings(&settings[d], &settings[i]) {
                assert(u[k as int] == settings@[i as int].view_settings());
                found = true;
            } else {
                k = k + 1;
            }
        }
        let ghost x = s[i as int];
        proof {
            assert(s.take(i + 1) =~= s.take(i as int).push(x));
            s.take(i as int).lemma_push_to_set_commute(x);
        }
        if !found {
            proof {
                assert(!u.contains(x));
                u.lemma_push_to_set_commute(x);
                let w = u.push(x);
                assert forall|p: int, q: int| 0 <= p < w.len() && 0 <= q < w.len() && p != q implies w[p] != w[q] by {
                    if p < u.len() && q < u.len() {
                    } else if p == u.len() {
                        assert(u.contains(w[q]));
                    } else {
                        assert(u.contains(w[p]));
                    }
                }
                u = w;
            }
            distinct.push(i);
        } else {
            proof {
                assert(u.to_set().contains(x));
                assert(u.to_set().insert(x) =~= u.to_set());
            }
        }
        i = i + 1;
    }
    proof {
        assert(s.take(len as int) =~= s);
        u.unique_seq_to_set();
    }
    distinct.len() as u32
}

/// The files are ordered by path.
pub open spec fn sorted_by_path(files: Seq<ScannedFile>) -> bool {
    forall|i: int, j: int| 0 <= i < j < files.len() ==> !crate::text::lex_lt(files[j].path@, files[i].path@)
}

/// Where `x` goes among the files `t`, ordered by path, when it comes after them:
/// after every file whose path is not greater than its own.
pub open spec fn insert_pos(t: Seq<ScannedFile>, x: ScannedFile) -> nat
    decreases t.len(),
{
    if t.len() == 0 {
        0
    } else if crate::text::lex_lt(x.path@, t.last().path@) {
        insert_pos(t.drop_last(), x)
    } else {
        t.len()
    }
}

/// The files ordered by path by a stable sort: each file, in turn, is placed after
/// the files before it whose path is not greater than its own.
pub open spec fn stable_sorted(s: Seq<ScannedFile>) -> Seq<ScannedFile>
    decreases s.len(),
{
    if s.len() == 0 {
        s
    } else {
        let t = stable_sorted(s.drop_last());
        t.insert(insert_pos(t, s.last()) as int, s.last())
    }
}

/// Orders `files` by path, keeping files with equal paths in their given order.
#[verifier::spinoff_prover]
#[verifier::rlimit(30)]
pub fn sort_by_path(files: &mut Vec<ScannedFile>)
    ensures
        final(files)@ == stable_sorted(old(files)@),
        sorted_by_path(final(files)@),
        final(files)@.to_multiset() == old(files)@.to_multiset(),
{
    broadcast use vstd::seq_lib::group_to_multiset_ensures;

    let n = files.len();
    let mut i: usize = 1;
    if n == 0 {
        assert(old(files)@ =~= Seq::<ScannedFile>::empty());
        return;
    }
    proof {
        let o = old(files)@;
        assert(o.take(1).drop_last() =~= Seq::<ScannedFile>::empty());
        assert(stable_sorted(Seq::<ScannedFile>::empty()) =~= Seq::<ScannedFile>::empty());
        assert(o.take(1) =~= seq![o[0]]);
        assert(Seq::<ScannedFile>::empty().insert(0, o[0]) =~= seq![o[0]]);
    }
    while i < n
        invariant
            1 <= i <= n,
            files@.len() == n,
            files@.to_multiset() == old(files)@.to_multiset(),
            sorted_by_path(files@.take(i as int)),
            files@.take(i as int) == stable_sorted(old(files)@.take(i as int)),
            files@.skip(i as int) == old(files)@.skip(i as int),
            old(files)@.len() == n,
        decreases n - i,
    {
        let ghost before = files@;
        let ghost t = before.take(i as int);
        assert(before[i as int] == before.skip(i as int)[0]);
        let x = files.remove(i);
        let mut j: usize = i;
        assert(t.take(i as int) =~= t);
        while j > 0 && path_less(x.path.as_str(), files[j - 1].path.as_str())
            invariant
                0 <= j <= i < n,
                files@.len() == n - 1,
                files@ == before.remove(i as int),
                x == before[i as int],
                t == before.take(i as int),
                before.len() == n,
                insert_pos(t, x) == insert_pos(t.take(j as int), x),
                forall|k: int| j <= k < i ==> #[trigger] crate::text::lex_lt(x.path@, files@[k].path@),
            decreases j,
        {
            assert(files@[j - 1] == t[j - 1]);
            assert(t.take(j as int).drop_last() =~= t.take(j - 1));
            assert(t.take(j as int).last() == t[j - 1]);
            j = j - 1;
        }
        proof {
            if j > 0 {
                assert(files@[j - 1] == t[j - 1]);
                assert(t.take(j as int).last() == t[j - 1]);
            }
            assert(insert_pos(t, x) == j);
        }
        let ghost removed = files@;
        files.insert(j, x);
        proof {
            let o = old(files)@;
            assert(o.take(i + 1).drop_last() =~= o.take(i as int));
            assert(o[i as int] == o.skip(i as int)[0]);
            assert(o.take(i + 1).last() == o[i as int]);
            assert(files@.take(i + 1) =~= t.insert(j as int, x));
            assert(files@.skip(i + 1) =~= o.skip(i + 1)) by {
                assert(before.skip(i + 1) =~= o.skip(i as int).skip(1));
            }
        }
        proof {
            broadcast use vstd::multiset::group_multiset_axioms;

            vstd::seq_lib::to_multiset_remove(before, i as int);
            vstd::seq_lib::to_multiset_insert(removed, j as int, x);
            assert(before.to_multiset().contains(x)) by {
                vstd::seq_lib::to_multiset_contains(before, x);
                assert(before.contains(x)) by { assert(before[i as int] == x); }
            }
            assert(files@.to_multiset() =~= before.to_multiset());
            let t = files@.take(i + 1);
            assert forall|a: int, b: int| 0 <= a < b < t.len() implies !crate::text::lex_lt(
                t[b].path@,
                t[a].path@,
            ) by {
                let pa = t[a].path@;
                let pb = t[b].path@;
                if a < j && b < j {
                    assert(t[a] == before[a] && t[b] == before[b]);
                } else if a < j && b == j {
                    assert(!crate::text::lex_lt(x.path@, removed[j - 1].path@));
                    if a < j - 1 {
                        assert(t[a] == before[a]);
                        assert(removed[j - 1] == before[j - 1]);
                        crate::text::lemma_lex_le_trans(pa, removed[j - 1].path@, x.path@);
                    }
                } else if a < j {
                    assert(t[a] == before[a] && t[b] == before[b - 1]);
                } else if a == j {
                    assert(t[b] == removed[b - 1]);
                    assert(crate::text::lex_lt(x.path@, removed[b - 1].path@));
                    crate::text::lemma_lex_lt_asym(x.path@, pb);
                } else {
                    assert(t[a] == before[a - 1] && t[b] == before[b - 1]);
                }
            }
        }
        i = i + 1;
    }
    assert(files@.take(n as int) =~= files@);
    assert(old(files)@.take(n as int) =~= old(files)@);
}

/// What the EXIF data of an image shows: exposure time, f-number and ISO as text,
/// then image width and height, each present when the data holds it.
pub type ExifFieldsView = (
    Option<Seq<char>>,
    Option<Seq<char>>,
    Option<Seq<char>>,
    Option<u32>,
    Option<u32>,
);

/// The EXIF fields that the `exif` crate reads from the image file with contents
/// `data`, or `None` when it finds no EXIF data there.
pub uninterp spec fn exif_fields(data: Seq<u8>) -> Option<ExifFieldsView>;

/// The fields of an image's EXIF data that processing uses.
pub struct ExifFields {
    pub exposure_time: Option<String>,
    pub f_number: Option<String>,
    pub iso: Option<String>,
    pub width: Option<u32>,
    pub height: Option<u32>,
}

impl ExifFields {
    pub open spec fn view_fields(self) -> ExifFieldsView {
        (
            crate::text::opt_string_text(self.exposure_time),
            crate::text::opt_string_text(self.f_number),
            crate::text::opt_string_text(self.iso),
            self.width,
            self.height,
        )
    }
}

/// Reads the EXIF data of an image file held in memory with
/// `exif::Reader::read_from_container`; of the primary image it displays
/// `ExposureTime`, `FNumber` and `PhotographicSensitivity` with
/// `Field::display_value`, and takes the first unsigned integer of `ImageWidth`
/// and `ImageLength` with `Value::get_uint`. The contract names the outcome; how the
/// crate parses the data and displays values is not stated.
#[verifier::external_body]
pub(crate) fn read_exif_fields(data: &[u8]) -> (r: Option<ExifFields>)
    ensures
        match r {
            Some(f) => exif_fields(data@) == Some(f.view_fields()),
            None => exif_fields(data@) is None,
        },
{
    let exif = exif::Reader::new().read_from_container(&mut std::io::Cursor::new(data)).ok()?;
    let field = |tag| exif.get_field(tag, exif::In::PRIMARY);
    let text = |tag| field(tag).map(|f| f.display_value().to_string());
    let uint = |tag| field(tag).and_then(|f| f.value.get_uint(0));
    Some(ExifFields {
        exposure_time: text(exif::Tag::ExposureTime),
        f_number: text(exif::Tag::FNumber),
        iso: text(exif::Tag::PhotographicSensitivity),
        width: uint(exif::Tag::ImageWidth),
        height: uint(exif::Tag::ImageLength),
    })
}

/// The file entry for the image at `path` whose contents are `data`: its exposure
/// settings as the EXIF data shows them, none when the file holds no EXIF data.
pub fn read_exif_data(path: String, data: &[u8]) -> (r: ScannedFile)
    ensures
        r.path == path,
        match exif_fields(data@) {
            Some((e, n, i, _, _)) => {
                &&& crate::text::opt_string_text(r.exposure_time) == e
                &&& crate::text::opt_string_text(r.f_number) == n
                &&& crate::text::opt_string_text(r.iso) == i
            },
            None => r.exposure_time is None && r.f_number is None && r.iso is None,
        },
{
    match read_exif_fields(data) {
        Some(f) => ScannedFile {
            path,
            exposure_time: f.exposure_time,
            f_number: f.f_number,
            iso: f.iso,
        },
        None => ScannedFile { path, exposure_time: None, f_number: None, iso: None },
    }
}

/// Combines the processed and the raw image files of a folder, orders them by path
/// and detects the bracket pattern.
///
/// The number of sets is the number of files divided by the number of brackets,
/// rounded down. The folder holds raw files when the raw list is not empty.
pub fn scan_folder(processed_files: Vec<ScannedFile>, raw_files: Vec<ScannedFile>) -> (r: ScanResult)
    requires
        processed_files@.len() + raw_files@.len() <= u32::MAX,
    ensures
        r.files@ == stable_sorted(processed_files@ + raw_files@),
        r.files@.to_multiset() == (processed_files@ + raw_files@).to_multiset(),
        sorted_by_path(r.files@),
        r.is_raw == (raw_files@.len() > 0),
        is_bracket_count(r.files@, r.brackets as int),
        r.brackets >= 1,
        r.sets == r.files@.len() / (r.brackets as nat),
{
    let is_raw = raw_files.len() > 0;
    let mut files = processed_files;
    let mut raw = raw_files;
    files.append(&mut raw);
    let ghost combined = files@;
    sort_by_path(&mut files);
    proof {
        vstd::seq_lib::to_multiset_len(files@);
        vstd::seq_lib::to_multiset_len(combined);
    }
    let brackets = detect_brackets(files.as_slice());
    let sets = (files.len() as u32) / brackets;
    ScanResult { files, is_raw, brackets, sets }
}

/// Every bracket count is at least one, so the sets of a scan never hold more
/// files than the folder does.
pub proof fn lemma_sets_fit_files(r: ScanResult)
    requires
        r.brackets >= 1,
        r.sets == r.files@.len() / (r.brackets as nat),
    ensures
        r.sets * r.brackets <= r.files@.len(),
        r.files@.len() < (r.sets + 1) * r.brackets,
{
    let n = r.files@.len() as int;
    let b = r.brackets as int;
    vstd::arithmetic::div_mod::lemma_fundamental_div_mod(n, b);
    vstd::arithmetic::div_mod::lemma_mod_bound(n, b);
    assert(r.sets * r.brackets <= n) by (nonlinear_arith)
        requires r.sets == n / b, n == b * (n / b) + n % b, 0 <= n % b, b == r.brackets;
    assert(n < (r.sets + 1) * b) by (nonlinear_arith)
        requires r.sets == n / b, n == b * (n / b) + n % b, n % b < b;
}

/// Some listed extension, in lowercase, is a dot followed by `ext` in lowercase.
pub open spec fn extension_listed(ext: Seq<char>, extensions: Seq<String>) -> bool {
    exists|k: int|
        0 <= k < extensions.len() && crate::text::lowercase(#[trigger] extensions[k]@) == seq![
            '.',
        ] + crate::text::lowercase(ext)
}

/// Whether a file with extension `ext` (without the dot) is one of `extensions`
/// (written with the dot), ignoring case.
pub fn has_listed_extension(ext: &str, extensions: &[String]) -> (r: bool)
    ensures
        r == extension_listed(ext@, extensions@),
{
    let lower = crate::text::to_lowercase(ext);
    let mut dotted = String::new();
    dotted.push('.');
    crate::text::push_str(&mut dotted, lower.as_str());
    assert(dotted@ =~= seq!['.'] + crate::text::lowercase(ext@));
    let mut k: usize = 0;
    while k < extensions.len()
        invariant
            k <= extensions@.len(),
            dotted@ == seq!['.'] + crate::text::lowercase(ext@),
            forall|j: int|
                0 <= j < k ==> crate::text::lowercase(#[trigger] extensions@[j]@) != dotted@,
        decreases extensions@.len() - k,
    {
        let e = crate::text::to_lowercase(extensions[k].as_str());
        if e.eq(&dotted) {
            return true;
        }
        k = k + 1;
    }
    false
}

/// When the files' exposure settings repeat a pattern of distinct settings, the
/// bracket count is the number of settings in the pattern.
pub proof fn lemma_brackets_count_distinct_settings(files: Seq<ScannedFile>, m: int, b: int)
    requires
        is_bracket_count(files, b),
        files.len() > 0,
        settings_sequence(files).len() > 0,
        repeats_with_period(settings_sequence(files), m),
        forall|x: int, y: int|
            0 <= x < y < m ==> settings_sequence(files)[x] != settings_sequence(files)[y],
    ensures
        b == m,
{
    let s = settings_sequence(files);
    assert(m <= s.len()) by {
        vstd::arithmetic::div_mod::lemma_mod_self_0(m);
        if s.len() < m {
            vstd::arithmetic::div_mod::lemma_small_mod(s.len(), m as nat);
        }
    }
    let p = s.take(m);
    assert(p.no_duplicates());
    assert(s.to_set() =~= p.to_set()) by {
        assert forall|v: SettingsView| s.to_set().contains(v) implies p.to_set().contains(v) by {
            let i = choose|i: int| 0 <= i < s.len() && s[i] == v;
            vstd::arithmetic::div_mod::lemma_mod_bound(i, m);
            assert(p[i % m] == v);
        }
        assert forall|v: SettingsView| p.to_set().contains(v) implies s.to_set().contains(v) by {
            let i = choose|i: int| 0 <= i < p.len() && p[i] == v;
            assert(s[i] == v);
        }
    }
    p.unique_seq_to_set();
}

} // verus!

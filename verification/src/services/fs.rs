//! Naming and listing of configuration files. Reading and writing them is
//! left to the caller; this module decides which file a part number is
//! stored in and which entries of the folder are configurations, in which
//! order.

use vstd::prelude::*;
use crate::domain::text::{chars_of, owned, string_of_range};

verus! {

/// Name of the folder where config JSON files are stored.
pub const INFO_JSON_DIR: &'static str = "INFO_JSON";

/// The file name of the configuration of a part number: `<part>.json`.
pub fn config_file_name(part_number: &str) -> (r: String)
    ensures
        r@ == part_number@ + ".json"@,
{
    let mut r = owned(part_number);
    r.append(".json");
    r
}

/// A file name that every platform treats as a plain relative name: not
/// empty, not `.` or `..`, and free of separators and drive prefixes.
pub open spec fn is_plain_name(name: Seq<char>) -> bool {
    &&& name.len() > 0
    &&& name != "."@
    &&& name != ".."@
    &&& forall|i: int| 0 <= i < name.len() ==> #[trigger] name[i] != '/' && name[i] != '\\' && name[i] != ':'
}

/// A path separator on some platform: `/` everywhere, `\` on Windows.
pub open spec fn is_separator(c: char) -> bool {
    c == '/' || c == '\\'
}

/// A folder path that joining extends with one separator and the name: not
/// empty, not ending in a separator or in a colon (a bare drive such as
/// `C:` on Windows), and without the verbatim prefix `\\?\` after which
/// Windows normalises the joined path.
pub open spec fn joins_with_separator(base: Seq<char>) -> bool {
    &&& base.len() > 0
    &&& !is_separator(base.last())
    &&& base.last() != ':'
    &&& !(base.len() >= 4 && base.take(4) == "\\\\?\\"@)
}

/// A folder path that already ends in `/`, the separator of every platform,
/// and has no verbatim prefix: joining appends the name with no separator.
pub open spec fn ends_in_slash(base: Seq<char>) -> bool {
    &&& base.len() > 0
    &&& base.last() == '/'
    &&& !(base.len() >= 4 && base.take(4) == "\\\\?\\"@)
}

/// `r` is `base`, one separator, then `name`.
pub open spec fn is_joined(r: Seq<char>, base: Seq<char>, name: Seq<char>) -> bool {
    &&& r.len() == base.len() + 1 + name.len()
    &&& r.take(base.len() as int) == base
    &&& is_separator(r[base.len() as int])
    &&& r.skip(base.len() + 1int) == name
}

/// `Path::join` from std, rendered back to text. The documentation of
/// `PathBuf::push` says that a relative name is appended after a separator
/// unless the path is empty or already ends in one; on Windows a bare drive
/// such as `C:` gets no separator and a path with a verbatim prefix is
/// normalised. For a plain name this gives: the name itself after an empty
/// path, the path and the name after a path ending in `/`, and the path, a
/// separator and the name after a path of the kind `joins_with_separator`
/// describes. Which separator (`/` or `\`) is the platform's. A path ending
/// in `\`, and names holding `\` or `:`, are joined differently on Windows
/// and elsewhere; they, and paths with a verbatim prefix, are not described.
#[verifier::external_body]
fn join_path(base: &str, name: &str) -> (r: String)
    ensures
        is_plain_name(name@) && base@.len() == 0 ==> r@ == name@,
        is_plain_name(name@) && ends_in_slash(base@) ==> r@ == base@ + name@,
        is_plain_name(name@) && joins_with_separator(base@) ==> is_joined(r@, base@, name@),
{
    std::path::Path::new(base).join(name).to_string_lossy().into_owned()
}

/// Build the full path for a config file: `<info_dir>/<part>.json`.
pub fn config_file_path(info_dir: &str, part_number: &str) -> (r: String)
    ensures
        is_plain_name(part_number@ + ".json"@) && info_dir@.len() == 0 ==> r@ == part_number@ + ".json"@,
        is_plain_name(part_number@ + ".json"@) && ends_in_slash(info_dir@) ==> r@ == info_dir@ + part_number@
            + ".json"@,
        is_plain_name(part_number@ + ".json"@) && joins_with_separator(info_dir@) ==> is_joined(
            r@,
            info_dir@,
            part_number@ + ".json"@,
        ),
{
    let name = config_file_name(part_number);
    join_path(info_dir, name.as_str())
}

// ---- Listing the folder ----

/// The position of the last dot of a file name, or -1 when it has none.
pub open spec fn last_dot(name: Seq<char>) -> int
    decreases name.len(),
{
    if name.len() == 0 {
        -1
    } else if name.last() == '.' {
        name.len() - 1
    } else {
        last_dot(name.drop_last())
    }
}

/// Whether a file name has an extension, as `Path::extension` decides it:
/// it has a dot after its first character and is not `..`.
pub open spec fn has_extension(name: Seq<char>) -> bool {
    name != ".."@ && last_dot(name) > 0
}

/// The extension of a file name (`Path::extension`): what follows its last
/// dot.
pub open spec fn name_extension(name: Seq<char>) -> Option<Seq<char>> {
    if has_extension(name) {
        Some(name.skip(last_dot(name) + 1))
    } else {
        None
    }
}

/// The stem of a file name (`Path::file_stem`): what precedes its last dot,
/// or the whole name when it has no extension.
pub open spec fn name_stem(name: Seq<char>) -> Seq<char> {
    if has_extension(name) {
        name.take(last_dot(name))
    } else {
        name
    }
}

proof fn lemma_last_dot(name: Seq<char>)
    ensures
        -1 <= last_dot(name) < name.len(),
        last_dot(name) >= 0 ==> name[last_dot(name)] == '.',
        forall|i: int| last_dot(name) < i < name.len() ==> name[i] != '.',
    decreases name.len(),
{
    if name.len() > 0 && name.last() != '.' {
        lemma_last_dot(name.drop_last());
        assert forall|i: int| last_dot(name) < i < name.len() implies name[i] != '.' by {
            if i < name.len() - 1 {
                assert(name[i] == name.drop_last()[i]);
            }
        }
    }
}

/// The stem and extension of a file name.
pub fn split_file_name(name: &str) -> (r: (String, Option<String>))
    ensures
        r.0@ == name_stem(name@),
        match r.1 {
            Some(e) => name_extension(name@) == Some(e@),
            None => name_extension(name@) is None,
        },
{
    let cs = chars_of(name);
    let n = cs.len();
    let mut k: usize = n;
    while k > 0 && cs[k - 1] != '.'
        invariant
            k <= n == cs@.len(),
            cs@ == name@,
            forall|i: int| k <= i < n ==> cs@[i] != '.',
        decreases k,
    {
        k = k - 1;
    }
    proof {
        lemma_last_dot(name@);
        reveal_strlit("..");
        if k > 0 {
            assert(cs@[k - 1] == '.');
            if last_dot(name@) > k - 1 {
                assert(name@[last_dot(name@)] == '.');
            }
            assert(last_dot(name@) == k - 1);
        } else {
            assert(last_dot(name@) == -1 || last_dot(name@) == 0) by {
                if last_dot(name@) > 0 {
                    assert(name@[last_dot(name@)] == '.');
                }
            }
        }
    }
    let is_dotdot = n == 2 && cs[0] == '.' && cs[1] == '.';
    proof {
        if is_dotdot {
            assert(name@ =~= ".."@);
        }
        if name@ == ".."@ {
            assert(name@[0] == '.' && name@[1] == '.');
        }
    }
    if k > 1 && !is_dotdot {
        let stem = string_of_range(&cs, 0, k - 1);
        let ext = string_of_range(&cs, k, n);
        proof {
            assert(stem@ =~= name@.take(k - 1));
            assert(ext@ =~= name@.skip(k as int));
        }
        (stem, Some(ext))
    } else {
        (owned(name), None)
    }
}

/// `a` comes before `b`, or is `b`, in the order of `str`: character by
/// character (which for UTF-8 text is the order of its bytes), a proper
/// prefix first.
pub open spec fn text_le(a: Seq<char>, b: Seq<char>) -> bool
    decreases a.len(),
{
    if a.len() == 0 {
        true
    } else if b.len() == 0 {
        false
    } else if (a[0] as u32) != (b[0] as u32) {
        (a[0] as u32) < (b[0] as u32)
    } else {
        text_le(a.drop_first(), b.drop_first())
    }
}

proof fn lemma_text_le_total(a: Seq<char>, b: Seq<char>)
    ensures
        text_le(a, b) || text_le(b, a),
    decreases a.len(),
{
    if a.len() > 0 && b.len() > 0 && (a[0] as u32) == (b[0] as u32) {
        lemma_text_le_total(a.drop_first(), b.drop_first());
    }
}

proof fn lemma_text_le_trans(a: Seq<char>, b: Seq<char>, c: Seq<char>)
    requires
        text_le(a, b),
        text_le(b, c),
    ensures
        text_le(a, c),
    decreases a.len(),
{
    if a.len() > 0 && b.len() > 0 && c.len() > 0 && (a[0] as u32) == (b[0] as u32) && (b[0] as u32) == (c[0] as u32) {
        lemma_text_le_trans(a.drop_first(), b.drop_first(), c.drop_first());
    }
}

/// Whether `a` comes before `b` or is `b` in the order of `str`.
fn text_le_exec(a: &str, b: &str) -> (r: bool)
    ensures
        r == text_le(a@, b@),
{
    let x = chars_of(a);
    let y = chars_of(b);
    let mut i: usize = 0;
    assert(a@.skip(0) =~= a@ && b@.skip(0) =~= b@);
    while i < x.len() && i < y.len() && (x[i] as u32) == (y[i] as u32)
        invariant
            i <= x@.len(),
            i <= y@.len(),
            x@ == a@,
            y@ == b@,
            text_le(a@, b@) == text_le(a@.skip(i as int), b@.skip(i as int)),
        decreases x.len() - i,
    {
        proof {
            assert(a@.skip(i as int).drop_first() =~= a@.skip(i + 1));
            assert(b@.skip(i as int).drop_first() =~= b@.skip(i + 1));
        }
        i = i + 1;
    }
    if i == x.len() {
        true
    } else if i == y.len() {
        false
    } else {
        (x[i] as u32) < (y[i] as u32)
    }
}

/// The configurations among the entries of a folder, given as (file name,
/// path) pairs: those whose extension is `json`, each as its stem and path,
/// in the order of the entries.
pub open spec fn json_entries(entries: Seq<(String, String)>) -> Seq<(Seq<char>, Seq<char>)>
    decreases entries.len(),
{
    if entries.len() == 0 {
        Seq::empty()
    } else {
        let rest = json_entries(entries.drop_last());
        let e = entries.last();
        if name_extension(e.0@) == Some("json"@) {
            rest.push((name_stem(e.0@), e.1@))
        } else {
            rest
        }
    }
}

/// The text form of a list of (stem, path) pairs.
pub open spec fn files_view(files: Seq<(String, String)>) -> Seq<(Seq<char>, Seq<char>)> {
    Seq::new(files.len(), |i: int| (files[i].0@, files[i].1@))
}

/// The pairs are in the order of their stems.
pub open spec fn sorted_by_stem(files: Seq<(Seq<char>, Seq<char>)>) -> bool {
    forall|i: int, j: int| 0 <= i < j < files.len() ==> text_le(#[trigger] files[i].0, #[trigger] files[j].0)
}

proof fn lemma_insert_multiset<A>(s: Seq<A>, i: int, a: A)
    requires
        0 <= i <= s.len(),
    ensures
        s.insert(i, a).to_multiset() == s.to_multiset().insert(a),
{
    broadcast use vstd::seq_lib::group_to_multiset_ensures;
    let t = s.insert(i, a);
    assert(t.remove(i) =~= s);
    assert(t[i] == a);
    assert(t.to_multiset().count(a) > 0) by {
        assert(t.contains(a));
    }
    assert(t.to_multiset() =~= s.to_multiset().insert(a));
}

/// List the configurations among the entries of the folder: the entries
/// whose extension is `json`, each as its stem and path, sorted by stem.
pub fn list_json_files(entries: Vec<(String, String)>) -> (r: Vec<(String, String)>)
    ensures
        sorted_by_stem(files_view(r@)),
        files_view(r@).to_multiset() == json_entries(entries@).to_multiset(),
{
    broadcast use vstd::seq_lib::group_to_multiset_ensures;
    let mut r: Vec<(String, String)> = Vec::new();
    let mut k: usize = 0;
    while k < entries.len()
        invariant
            k <= entries@.len(),
            sorted_by_stem(files_view(r@)),
            files_view(r@).to_multiset() == json_entries(entries@.take(k as int)).to_multiset(),
        decreases entries.len() - k,
    {
        proof {
            assert(entries@.take(k + 1).drop_last() =~= entries@.take(k as int));
            assert(entries@.take(k + 1).last() == entries@[k as int]);
        }
        let (stem, ext) = split_file_name(entries[k].0.as_str());
        let is_json = match &ext {
            Some(e) => {
                proof {
                    reveal_strlit("json");
                }
                let ec = chars_of(e.as_str());
                let b = ec.len() == 4 && ec[0] == 'j' && ec[1] == 's' && ec[2] == 'o' && ec[3] == 'n';
                proof {
                    if b {
                        assert(e@ =~= "json"@);
                    } else if e@ == "json"@ {
                        assert(e@[0] == 'j' && e@[1] == 's' && e@[2] == 'o' && e@[3] == 'n');
                    }
                }
                b
            },
            None => false,
        };
        proof {
            assert(is_json == (name_extension(entries@[k as int].0@) == Some("json"@)));
            let kept = json_entries(entries@.take(k + 1));
            if is_json {
                assert(kept == json_entries(entries@.take(k as int)).push((stem@, entries@[k as int].1@)));
            } else {
                assert(kept == json_entries(entries@.take(k as int)));
            }
        }
        if is_json {
            let mut p: usize = 0;
            while p < r.len() && text_le_exec(r[p].0.as_str(), stem.as_str())
                invariant
                    p <= r@.len(),
                    forall|i: int| 0 <= i < p ==> text_le(#[trigger] r@[i].0@, stem@),
                decreases r.len() - p,
            {
                p = p + 1;
            }
            let ghost old_view = files_view(r@);
            let ghost x = (stem@, entries@[k as int].1@);
            r.insert(p, (stem, entries[k].1.clone()));
            proof {
                assert(files_view(r@) =~= old_view.insert(p as int, x));
                lemma_insert_multiset(old_view, p as int, x);
                let before = json_entries(entries@.take(k as int));
                vstd::seq_lib::to_multiset_build(before, x);
                assert(json_entries(entries@.take(k + 1)) == before.push(x));
                if p < old_view.len() {
                    lemma_text_le_total(old_view[p as int].0, x.0);
                }
                assert forall|i: int, j: int| 0 <= i < j < files_view(r@).len() implies text_le(
                    #[trigger] files_view(r@)[i].0,
                    #[trigger] files_view(r@)[j].0,
                ) by {
                    let v = files_view(r@);
                    if j == p {
                        assert(v[i] == old_view[i]);
                    } else if i == p {
                        assert(v[j] == old_view[j - 1]);
                        if j - 1 > p {
                            assert(text_le(old_view[p as int].0, old_view[j - 1].0));
                            lemma_text_le_trans(x.0, old_view[p as int].0, old_view[j - 1].0);
                        }
                    } else {
                        let oi = if i < p { i } else { i - 1 };
                        let oj = if j < p { j } else { j - 1 };
                        assert(v[i] == old_view[oi]);
                        assert(v[j] == old_view[oj]);
                        if i < p && j > p {
                            assert(text_le(old_view[oi].0, x.0));
                            if oj > p {
                                lemma_text_le_total(old_view[p as int].0, x.0);
                                assert(text_le(old_view[p as int].0, old_view[oj].0));
                                lemma_text_le_trans(x.0, old_view[p as int].0, old_view[oj].0);
                            }
                            lemma_text_le_trans(old_view[oi].0, x.0, old_view[oj].0);
                        }
                    }
                }
            }
        }
        k = k + 1;
    }
    proof {
        assert(entries@.take(entries@.len() as int) =~= entries@);
    }
    r
}

} // verus!

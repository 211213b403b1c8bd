//! Directory cache: an entry for the keys `[k1, ..., kn]` lives at
//! `<cache_dir>/k1/k2/.../kn/<filename>`.
use vstd::prelude::*;
use vstd::string::*;

verus! {

/// The character that joins path components.
pub open spec fn separator() -> char {
    '/'
}

/// A key segment may stand as one path component: it is not empty, holds no
/// separator, and is neither `.` nor `..`.
pub open spec fn valid_segment(s: Seq<char>) -> bool {
    &&& s.len() > 0
    &&& !s.contains(separator())
    &&& s != seq!['.']
    &&& s != seq!['.', '.']
}

/// A key is a non-empty sequence of valid segments.
pub open spec fn valid_key(keys: Seq<Seq<char>>) -> bool {
    &&& keys.len() > 0
    &&& forall|i: int| 0 <= i < keys.len() ==> valid_segment(#[trigger] keys[i])
}

/// The segments of a key, as character sequences.
pub open spec fn keys_view(keys: &[&str]) -> Seq<Seq<char>> {
    keys@.map_values(|k: &str| k@)
}

/// `/k1/k2/.../kn`: each segment preceded by a separator.
pub open spec fn joined(keys: Seq<Seq<char>>) -> Seq<char>
    decreases keys.len(),
{
    if keys.len() == 0 {
        Seq::empty()
    } else {
        joined(keys.drop_last()) + seq![separator()] + keys.last()
    }
}

/// The directory that holds the entry of `keys`.
pub open spec fn dir_path(root: Seq<char>, keys: Seq<Seq<char>>) -> Seq<char> {
    root + joined(keys)
}

/// The file that holds the entry of `keys`.
pub open spec fn file_path(root: Seq<char>, filename: Seq<char>, keys: Seq<Seq<char>>) -> Seq<
    char,
> {
    dir_path(root, keys) + seq![separator()] + filename
}

/// Whether `s` can stand as one path component.
pub fn is_valid_segment(s: &str) -> (r: bool)
    ensures
        r == valid_segment(s@),
{
    let n = s.unicode_len();
    if n == 0 {
        return false;
    }
    let mut i: usize = 0;
    while i < n
        invariant
            n == s@.len(),
            i <= n,
            forall|j: int| 0 <= j < i ==> s@[j] != separator(),
        decreases n - i,
    {
        if s.get_char(i) == '/' {
            return false;
        }
        i = i + 1;
    }
    let dots = (n == 1 && s.get_char(0) == '.') || (n == 2 && s.get_char(0) == '.' && s.get_char(
        1,
    ) == '.');
    proof {
        if !dots {
            assert(s@ != seq!['.']) by {
                if s@ == seq!['.'] {
                    assert(s@[0] == '.');
                }
            }
            assert(s@ != seq!['.', '.']) by {
                if s@ == seq!['.', '.'] {
                    assert(s@[0] == '.' && s@[1] == '.');
                }
            }
        } else {
            if n == 1 {
                assert(s@ =~= seq!['.']);
            } else {
                assert(s@ =~= seq!['.', '.']);
            }
        }
    }
    !dots
}

/// Whether `keys` is a non-empty sequence of valid segments.
pub fn is_valid_key(keys: &[&str]) -> (r: bool)
    ensures
        r == valid_key(keys_view(keys)),
{
    let n = keys.len();
    if n == 0 {
        return false;
    }
    let mut i: usize = 0;
    while i < n
        invariant
            n == keys@.len(),
            i <= n,
            forall|j: int| 0 <= j < i ==> valid_segment(#[trigger] keys_view(keys)[j]),
        decreases n - i,
    {
        if !is_valid_segment(keys[i]) {
            assert(keys_view(keys)[i as int] == keys@[i as int]@);
            return false;
        }
        i = i + 1;
    }
    true
}

/// Two keys whose segments hold no separator are equal when their joined
/// forms are.
proof fn lemma_joined_injective(a: Seq<Seq<char>>, b: Seq<Seq<char>>)
    requires
        forall|i: int| 0 <= i < a.len() ==> !(#[trigger] a[i]).contains(separator()),
        forall|i: int| 0 <= i < b.len() ==> !(#[trigger] b[i]).contains(separator()),
        joined(a) == joined(b),
    ensures
        a == b,
    decreases a.len(),
{
    if a.len() == 0 && b.len() == 0 {
        assert(a =~= b);
    } else if a.len() == 0 || b.len() == 0 {
        if a.len() == 0 {
            assert(joined(b).len() > 0);
        } else {
            assert(joined(a).len() > 0);
        }
    } else {
        let j = joined(a);
        let la = a.last();
        let lb = b.last();
        let len = j.len() as int;
        assert(!a[a.len() - 1].contains(separator()));
        assert(!b[b.len() - 1].contains(separator()));
        if la.len() < lb.len() {
            let k = len - la.len() - 1;
            assert(j[k] == separator());
            let m = lb.len() - la.len() - 1;
            assert(joined(b)[k] == lb[m]);
            assert(lb.contains(lb[m]));
        } else if lb.len() < la.len() {
            let k = len - lb.len() - 1;
            assert(joined(b)[k] == separator());
            let m = la.len() - lb.len() - 1;
            assert(j[k] == la[m]);
            assert(la.contains(la[m]));
        }
        assert(la =~= j.subrange(len - la.len(), len));
        assert(lb =~= joined(b).subrange(len - lb.len(), len));
        assert(joined(a.drop_last()) =~= j.subrange(0, len - la.len() - 1));
        assert(joined(b.drop_last()) =~= joined(b).subrange(0, len - lb.len() - 1));
        let a2 = a.drop_last();
        let b2 = b.drop_last();
        assert forall|i: int| 0 <= i < a2.len() implies !(#[trigger] a2[i]).contains(
            separator(),
        ) by {
            assert(a2[i] == a[i]);
        }
        assert forall|i: int| 0 <= i < b2.len() implies !(#[trigger] b2[i]).contains(
            separator(),
        ) by {
            assert(b2[i] == b[i]);
        }
        lemma_joined_injective(a2, b2);
        assert(a =~= a2.push(la));
        assert(b =~= b2.push(lb));
    }
}

/// Distinct valid keys address distinct files under the same root and leaf
/// name: the order of the segments matters, and no entry can overwrite
/// another.
pub proof fn lemma_distinct_keys_distinct_files(
    root: Seq<char>,
    filename: Seq<char>,
    k1: Seq<Seq<char>>,
    k2: Seq<Seq<char>>,
)
    requires
        valid_key(k1),
        valid_key(k2),
        k1 != k2,
    ensures
        file_path(root, filename, k1) != file_path(root, filename, k2),
{
    if file_path(root, filename, k1) == file_path(root, filename, k2) {
        let p = file_path(root, filename, k1);
        let n1 = root.len() + joined(k1).len() as int;
        let n2 = root.len() + joined(k2).len() as int;
        assert(file_path(root, filename, k1).len() == n1 + 1 + filename.len());
        assert(file_path(root, filename, k2).len() == n2 + 1 + filename.len());
        assert(n1 == n2);
        assert(joined(k1) =~= p.subrange(root.len() as int, n1));
        assert(joined(k2) =~= p.subrange(root.len() as int, n2));
        lemma_joined_injective(k1, k2);
    }
}

/// A hierarchical cache rooted at `cache_dir`, whose entries are files named
/// `filename`.
pub struct Client {
    pub cache_dir: String,
    pub filename: String,
}

impl Client {
    pub fn new(cache_dir: String, filename: String) -> (r: Client)
        ensures
            r.cache_dir@ == cache_dir@,
            r.filename@ == filename@,
    {
        Client { cache_dir, filename }
    }

    pub fn dirpath_by_keys(&self, keys: &[&str]) -> (r: String)
        ensures
            r@ == dir_path(self.cache_dir@, keys_view(keys)),
    {
        let mut path = self.cache_dir.clone();
        proof {
            assert(keys_view(keys).take(0) =~= Seq::<Seq<char>>::empty());
        }
        let n = keys.len();
        for i in 0..n
            invariant
                n == keys@.len(),
                path@ == dir_path(self.cache_dir@, keys_view(keys).take(i as int)),
        {
            let ghost before = path@;
            proof {
                reveal_strlit("/");
            }
            path.append("/");
            path.append(keys[i]);
            proof {
                let ks = keys_view(keys);
                assert(ks.take(i + 1).drop_last() =~= ks.take(i as int));
                assert(ks.take(i + 1).last() == keys@[i as int]@);
                assert(joined(ks.take(i + 1)) == joined(ks.take(i as int)) + seq![separator()]
                    + keys@[i as int]@);
                assert(path@ =~= dir_path(self.cache_dir@, ks.take(i + 1)));
            }
        }
        proof {
            assert(keys_view(keys).take(n as int) =~= keys_view(keys));
        }
        path
    }

    pub fn filepath_by_keys(&self, keys: &[&str]) -> (r: String)
        ensures
            r@ == file_path(self.cache_dir@, self.filename@, keys_view(keys)),
    {
        let mut path = self.dirpath_by_keys(keys);
        proof {
            reveal_strlit("/");
        }
        path.append("/");
        path.append(self.filename.as_str());
        path
    }
}

} // verus!

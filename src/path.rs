//! Byte-level model of slash-separated paths: joining a name onto a
//! directory, and the component-wise ancestor test used by the allow-list.
use vstd::prelude::*;
use vstd::string::*;
use vstd::utf8::*;

verus! {

/// The path separator, `/`.
pub const SEPARATOR: u8 = 0x2F;

/// The UTF-8 bytes of a piece of text.
pub open spec fn utf8_of(s: Seq<char>) -> Seq<u8> {
    encode_utf8(s)
}

/// `base` names `candidate` itself or one of its ancestor directories.
///
/// Both are taken to be canonical paths (absolute, no `.`/`..`, no doubled
/// separators), for which a match on whole components is a byte prefix that
/// ends at a component boundary: `/home/u/Documents` is an ancestor of
/// `/home/u/Documents/a.txt` but not of `/home/u/DocumentsArchive`.
pub open spec fn is_within(candidate: Seq<u8>, base: Seq<u8>) -> bool {
    &&& 0 < base.len() <= candidate.len()
    &&& candidate.subrange(0, base.len() as int) == base
    &&& (candidate.len() == base.len() || base.last() == SEPARATOR || candidate[base.len() as int]
        == SEPARATOR)
}

/// `name` appended to `dir` as one more component. A separator is put between
/// them unless `dir` is empty or already ends in one; an absolute `name`
/// replaces `dir` altogether.
pub open spec fn join_spec(dir: Seq<u8>, name: Seq<u8>) -> Seq<u8> {
    if name.len() > 0 && name[0] == SEPARATOR {
        name
    } else if dir.len() == 0 || dir.last() == SEPARATOR {
        dir + name
    } else {
        dir + seq![SEPARATOR] + name
    }
}

/// Encoding a concatenation encodes each part.
pub proof fn lemma_utf8_concat(a: Seq<char>, b: Seq<char>)
    ensures
        encode_utf8(a + b) == encode_utf8(a) + encode_utf8(b),
    decreases a.len(),
{
    if a.len() == 0 {
        assert(a + b =~= b);
        assert(encode_utf8(a) =~= Seq::<u8>::empty());
        assert(encode_utf8(a) + encode_utf8(b) =~= encode_utf8(b));
    } else {
        lemma_utf8_concat(a.drop_first(), b);
        assert((a + b).drop_first() =~= a.drop_first() + b);
        assert((a + b)[0] == a[0]);
        assert(encode_utf8(a + b) =~= encode_utf8(a) + encode_utf8(b));
    }
}

/// The separator is a single byte in UTF-8.
proof fn lemma_utf8_separator()
    ensures
        encode_utf8("/"@) == seq![SEPARATOR],
{
    reveal_strlit("/");
    let s = "/"@;
    assert(s.drop_first() =~= Seq::<char>::empty());
    assert(('/' as u32) == 47u32);
    assert((47u32 & 0x7Fu32) == 47u32) by (bit_vector);
    assert(encode_utf8(s.drop_first()) =~= Seq::<u8>::empty());
    assert(encode_utf8(s) =~= seq![SEPARATOR]);
}

/// Whether `base` is `candidate` or one of its ancestors, by whole components
/// (see `is_within`).
pub fn path_starts_with(candidate: &str, base: &str) -> (r: bool)
    ensures
        r == is_within(utf8_of(candidate@), utf8_of(base@)),
{
    let c = candidate.as_bytes();
    let b = base.as_bytes();
    let bl = b.len();
    let cl = c.len();
    if bl == 0 || bl > cl {
        return false;
    }
    let mut i: usize = 0;
    while i < bl
        invariant
            i <= bl,
            bl <= cl,
            bl == b@.len(),
            cl == c@.len(),
            c@ == utf8_of(candidate@),
            b@ == utf8_of(base@),
            forall|j: int| 0 <= j < i ==> c@[j] == b@[j],
        decreases bl - i,
    {
        if c[i] != b[i] {
            assert(c@.subrange(0, bl as int)[i as int] != b@[i as int]);
            assert(c@.subrange(0, bl as int) != b@);
            return false;
        }
        i = i + 1;
    }
    assert(c@.subrange(0, bl as int) =~= b@);
    cl == bl || b[bl - 1] == SEPARATOR || c[bl] == SEPARATOR
}

/// `name` joined onto `dir` as one more path component (see `join_spec`).
pub fn join_path(dir: &str, name: &str) -> (r: String)
    ensures
        utf8_of(r@) == join_spec(utf8_of(dir@), utf8_of(name@)),
{
    let d = dir.as_bytes();
    let n = name.as_bytes();
    if n.len() > 0 && n[0] == SEPARATOR {
        return String::from_str(name);
    }
    let mut r = String::from_str(dir);
    if d.len() > 0 && d[d.len() - 1] != SEPARATOR {
        r.append("/");
        proof {
            lemma_utf8_separator();
            lemma_utf8_concat(dir@, "/"@);
        }
    }
    let ghost mid = r@;
    r.append(name);
    proof {
        lemma_utf8_concat(mid, name@);
    }
    r
}

} // verus!

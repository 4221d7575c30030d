use vstd::prelude::*;

verus! {

/// The literal that every extension binary name starts with.
pub const JUST_PREFIX: &'static str = "just-";

/// The extension-name prefix as a sequence of characters.
pub open spec fn just_prefix() -> Seq<char> {
    seq!['j', 'u', 's', 't', '-']
}

/// The canonical name of an extension: the prefix is added unless present.
pub open spec fn canonical(name: Seq<char>) -> Seq<char> {
    if just_prefix().is_prefix_of(name) {
        name
    } else {
        just_prefix() + name
    }
}

/// Whether `s` ends with `suffix`.
pub open spec fn ends_with(s: Seq<char>, suffix: Seq<char>) -> bool {
    suffix.len() <= s.len() && s.subrange(s.len() - suffix.len(), s.len() as int) == suffix
}

/// Whether `s` starts with `prefix`, decided character by character.
pub fn has_prefix(s: &str, prefix: &str) -> (r: bool)
    ensures
        r == prefix@.is_prefix_of(s@),
{
    let n = s.unicode_len();
    let m = prefix.unicode_len();
    if m > n {
        return false;
    }
    let mut i: usize = 0;
    while i < m
        invariant
            m == prefix@.len(),
            n == s@.len(),
            m <= n,
            i <= m,
            forall|j: int| 0 <= j < i ==> s@[j] == prefix@[j],
        decreases m - i,
    {
        if s.get_char(i) != prefix.get_char(i) {
            return false;
        }
        i = i + 1;
    }
    assert(prefix@ =~= s@.subrange(0, m as int));
    true
}

/// Whether `s` ends with `suffix`, decided character by character.
pub fn has_suffix(s: &str, suffix: &str) -> (r: bool)
    ensures
        r == ends_with(s@, suffix@),
{
    let n = s.unicode_len();
    let m = suffix.unicode_len();
    if m > n {
        return false;
    }
    let off = n - m;
    let mut i: usize = 0;
    while i < m
        invariant
            m == suffix@.len(),
            n == s@.len(),
            off == n - m,
            i <= m,
            forall|j: int| 0 <= j < i ==> s@[off + j] == suffix@[j],
        decreases m - i,
    {
        if s.get_char(off + i) != suffix.get_char(i) {
            assert(s@.subrange(off as int, n as int)[i as int] != suffix@[i as int]);
            return false;
        }
        i = i + 1;
    }
    assert(s@.subrange(off as int, n as int) =~= suffix@);
    true
}

/// Returns the canonical extension name of `name`: `name` itself when it
/// already starts with `just-`, and `just-` followed by `name` otherwise.
pub fn prepend_just_prefix(name: &str) -> (r: String)
    ensures
        r@ == canonical(name@),
{
    proof {
        reveal_strlit("just-");
    }
    assert(JUST_PREFIX@ =~= just_prefix());
    if has_prefix(name, JUST_PREFIX) {
        name.to_owned()
    } else {
        let mut s = String::from_str(JUST_PREFIX);
        s.append(name);
        s
    }
}

/// Canonicalising a name twice gives the same name as canonicalising it once.
pub proof fn lemma_canonical_idempotent(name: Seq<char>)
    ensures
        canonical(canonical(name)) == canonical(name),
{
    if !just_prefix().is_prefix_of(name) {
        assert((just_prefix() + name).subrange(0, 5) =~= just_prefix());
    }
}

/// A name that does not start with the prefix is canonicalised to the prefix
/// followed by the name.
pub proof fn lemma_canonical_adds_prefix(name: Seq<char>)
    requires
        !just_prefix().is_prefix_of(name),
    ensures
        canonical(name) == seq!['j', 'u', 's', 't', '-'] + name,
{
}

} // verus!

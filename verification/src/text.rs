use vstd::prelude::*;

verus! {

/// Whether `c` has the Unicode `White_Space` property (PropList.txt), the
/// property `char::is_whitespace` and `str::trim` go by: tab through carriage
/// return, space, next line, no-break space, ogham space mark, the spaces from
/// en quad to hair space, line and paragraph separators, narrow no-break
/// space, medium mathematical space and ideographic space.
pub open spec fn white_space(c: char) -> bool {
    let u = c as u32;
    ||| 0x09 <= u <= 0x0D
    ||| u == 0x20
    ||| u == 0x85
    ||| u == 0xA0
    ||| u == 0x1680
    ||| 0x2000 <= u <= 0x200A
    ||| u == 0x2028
    ||| u == 0x2029
    ||| u == 0x202F
    ||| u == 0x205F
    ||| u == 0x3000
}

/// Whether `c` is white space: see `white_space`.
pub fn is_white_space(c: char) -> (r: bool)
    ensures
        r == white_space(c),
{
    let u = c as u32;
    (0x09 <= u && u <= 0x0D) || u == 0x20 || u == 0x85 || u == 0xA0 || u == 0x1680 || (0x2000
        <= u && u <= 0x200A) || u == 0x2028 || u == 0x2029 || u == 0x202F || u == 0x205F || u
        == 0x3000
}

/// A text is blank when every one of its characters is white space; this is
/// exactly when trimming it leaves nothing.
pub open spec fn blank(s: Seq<char>) -> bool {
    forall|i: int| 0 <= i < s.len() ==> white_space(#[trigger] s[i])
}

/// Whether `s` holds nothing but white space (the empty text included).
pub fn is_blank(s: &str) -> (r: bool)
    ensures
        r == blank(s@),
{
    let mut chars = s.chars();
    let ghost all = s@;
    proof {
        broadcast use vstd::string::axiom_spec_iter;
    }
    let ghost mut seen: int = 0;
    loop
        invariant
            0 <= seen <= all.len(),
            all == s@,
            vstd::std_specs::iter::IteratorSpec::remaining(&chars) == all.skip(seen),
            vstd::std_specs::iter::IteratorSpec::obeys_prophetic_iter_laws(&chars),
            forall|j: int| 0 <= j < seen ==> white_space(#[trigger] all[j]),
        decreases all.len() - seen,
    {
        let next = chars.next();
        match next {
            None => {
                assert(all.skip(seen).len() == 0);
                return true;
            },
            Some(c) => {
                assert(all.skip(seen)[0] == all[seen]);
                if !is_white_space(c) {
                    return false;
                }
                assert(all.skip(seen).drop_first() =~= all.skip(seen + 1));
                proof {
                    seen = seen + 1;
                }
            },
        }
    }
}

/// Byte-wise comparison of two secrets that reads every byte of equal-length
/// inputs, whatever they hold, before answering.
pub fn tokens_match(expected: &[u8], actual: &[u8]) -> (matched: bool)
    ensures
        matched == (expected@ == actual@),
{
    if expected.len() != actual.len() {
        return false;
    }
    let mut difference: u8 = 0;
    let mut i: usize = 0;
    while i < expected.len()
        invariant
            expected.len() == actual.len(),
            i <= expected.len(),
            (difference == 0) <==> (forall|j: int| 0 <= j < i ==> expected@[j] == actual@[j]),
        decreases expected.len() - i,
    {
        let left = expected[i];
        let right = actual[i];
        let next = difference | (left ^ right);
        assert((next == 0) <==> (difference == 0 && left == right)) by (bit_vector)
            requires
                next == difference | (left ^ right),
        ;
        difference = next;
        i = i + 1;
    }
    proof {
        if difference == 0 {
            assert(expected@ =~= actual@);
        }
    }
    difference == 0
}

/// Among ASCII characters exactly tab, line feed, vertical tab, form feed,
/// carriage return and space are white space; letters, digits and
/// punctuation are not.
pub proof fn law_ascii_white_space(c: char)
    requires
        (c as u32) < 0x80,
    ensures
        white_space(c) <==> (0x09 <= (c as u32) <= 0x0D || (c as u32) == 0x20),
{
}

/// Beyond ASCII, the white-space characters are exactly next line, no-break
/// space, ogham space mark, en quad through hair space, the line and paragraph
/// separators, narrow no-break space, medium mathematical space and
/// ideographic space; zero-width space and the byte-order mark are not.
pub proof fn law_unicode_white_space(c: char)
    requires
        (c as u32) >= 0x80,
    ensures
        white_space(c) <==> ((c as u32) == 0x85 || (c as u32) == 0xA0 || (c as u32) == 0x1680
            || 0x2000 <= (c as u32) <= 0x200A || (c as u32) == 0x2028 || (c as u32) == 0x2029
            || (c as u32) == 0x202F || (c as u32) == 0x205F || (c as u32) == 0x3000),
        (c as u32) == 0x200B || (c as u32) == 0xFEFF || (c as u32) == 0x180E ==> !white_space(c),
{
}

/// A text is blank exactly when every one of its characters is white space;
/// so one character that is not white space, anywhere, makes it non-blank.
pub proof fn law_blank_is_all_white_space(s: Seq<char>)
    ensures
        blank(s) <==> (forall|i: int| 0 <= i < s.len() ==> white_space(#[trigger] s[i])),
        forall|i: int| 0 <= i < s.len() && !white_space(#[trigger] s[i]) ==> !blank(s),
{
}

/// Joining two texts gives a blank text exactly when both are blank; the
/// empty text is blank.
pub proof fn law_blank_concatenation(s: Seq<char>, t: Seq<char>)
    ensures
        blank(s + t) <==> (blank(s) && blank(t)),
        blank(Seq::<char>::empty()),
{
    assert forall|i: int| 0 <= i < s.len() implies (s + t)[i] == s[i] by {}
    assert forall|i: int| 0 <= i < t.len() implies (s + t)[s.len() + i] == t[i] by {}
    if blank(s) && blank(t) {
        assert forall|i: int| 0 <= i < (s + t).len() implies white_space(#[trigger] (s + t)[i]) by {
            if i < s.len() {
                assert((s + t)[i] == s[i]);
            } else {
                assert((s + t)[i] == t[i - s.len()]);
            }
        }
    }
    if blank(s + t) {
        assert forall|i: int| 0 <= i < s.len() implies white_space(#[trigger] s[i]) by {
            assert((s + t)[i] == s[i]);
        }
        assert forall|i: int| 0 <= i < t.len() implies white_space(#[trigger] t[i]) by {
            assert((s + t)[s.len() + i] == t[i]);
        }
    }
}

} // verus!

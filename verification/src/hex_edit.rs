//! A text field for hex strings that keeps its digits in space-separated pairs.

use crate::text::string_from_chars;
use vstd::prelude::*;

verus! {

/// Whether `c` is one of `0-9`, `a-f`, `A-F`.
pub open spec fn is_hex_digit(c: char) -> bool {
    ('0' <= c && c <= '9') || ('a' <= c && c <= 'f') || ('A' <= c && c <= 'F')
}

/// The hex digits of `s`, in order, with everything else left out.
pub open spec fn hex_digits(s: Seq<char>) -> Seq<char> {
    s.filter(|c: char| is_hex_digit(c))
}

/// Length of `n` characters once a space stands between each pair.
pub open spec fn grouped_len(n: nat) -> nat {
    if n == 0 {
        0
    } else {
        (n + (n - 1) / 2) as nat
    }
}

/// `h` written in pairs with one space between neighbouring pairs.
pub open spec fn grouped(h: Seq<char>) -> Seq<char> {
    Seq::new(
        grouped_len(h.len()),
        |i: int|
            if i % 3 == 2 {
                ' '
            } else {
                h[i - i / 3]
            },
    )
}

/// Executable test for a hex digit.
pub fn is_hex(c: char) -> (b: bool)
    ensures
        b == is_hex_digit(c),
{
    ('0' <= c && c <= '9') || ('a' <= c && c <= 'f') || ('A' <= c && c <= 'F')
}

/// Adding one more character to `s` adds it to the hex digits exactly when it
/// is a hex digit.
pub proof fn lemma_hex_digits_push(s: Seq<char>, c: char)
    ensures
        hex_digits(s.push(c)) == if is_hex_digit(c) {
            hex_digits(s).push(c)
        } else {
            hex_digits(s)
        },
{
    reveal(Seq::filter);
    assert(s.push(c).drop_last() =~= s);
}

/// The hex digits of a text are hex digits, and no more than the text holds.
pub proof fn lemma_hex_digits_sound(s: Seq<char>)
    ensures
        hex_digits(s).len() <= s.len(),
        forall|i: int| 0 <= i < hex_digits(s).len() ==> is_hex_digit(#[trigger] hex_digits(s)[i]),
    decreases s.len(),
{
    reveal(Seq::filter);
    if s.len() > 0 {
        lemma_hex_digits_sound(s.drop_last());
    }
}

/// A longer prefix of a text holds at least the hex digits of a shorter one.
pub proof fn lemma_hex_digits_prefix(s: Seq<char>, i: int, j: int)
    requires
        0 <= i <= j <= s.len(),
    ensures
        hex_digits(s.take(i)).len() <= hex_digits(s.take(j)).len(),
    decreases j - i,
{
    if i < j {
        lemma_hex_digits_prefix(s, i, j - 1);
        assert(s.take(j) =~= s.take(j - 1).push(s[j - 1]));
        lemma_hex_digits_push(s.take(j - 1), s[j - 1]);
    }
}

/// Grouping one more digit: a space comes first when the digit opens a new
/// pair after at least one complete pair.
pub proof fn lemma_grouped_push(h: Seq<char>, c: char)
    ensures
        grouped(h.push(c)) == if h.len() > 0 && h.len() % 2 == 0 {
            grouped(h).push(' ').push(c)
        } else {
            grouped(h).push(c)
        },
{
    let n = h.len() as int;
    let g = grouped(h.push(c));
    if n > 0 && n % 2 == 0 {
        let r = grouped(h).push(' ').push(c);
        assert(g.len() == r.len());
        assert forall|i: int| 0 <= i < g.len() implies g[i] == r[i] by {
            if i < grouped(h).len() {
                if i % 3 != 2 {
                    assert(i - i / 3 < n);
                }
            }
        }
        assert(g =~= r);
    } else {
        let r = grouped(h).push(c);
        assert(g.len() == r.len());
        assert forall|i: int| 0 <= i < g.len() implies g[i] == r[i] by {
            if i < grouped(h).len() {
                if i % 3 != 2 {
                    assert(i - i / 3 < n);
                }
            }
        }
        assert(g =~= r);
    }
}

/// Number of hex digits among the first `cursor` characters of `s` (among all
/// of them where `cursor` lies behind the end).
pub open spec fn digits_before(s: Seq<char>, cursor: nat) -> nat {
    if cursor <= s.len() {
        hex_digits(s.take(cursor as int)).len()
    } else {
        hex_digits(s).len()
    }
}

/// Where a cursor at character `cursor` of `s` stands once `s` is regrouped:
/// unmoved when `s` is already grouped, else right behind the same number of
/// hex digits as before.
pub open spec fn moved_cursor(s: Seq<char>, cursor: nat) -> nat {
    if s == grouped(hex_digits(s)) {
        cursor
    } else {
        grouped_len(digits_before(s, cursor))
    }
}

/// Whether every character of `h` is a hex digit.
pub open spec fn all_hex(h: Seq<char>) -> bool {
    forall|i: int| 0 <= i < h.len() ==> is_hex_digit(#[trigger] h[i])
}

/// Grouping adds spaces only: the hex digits of a grouped run of hex digits
/// are that run.
pub proof fn lemma_digits_of_grouped(h: Seq<char>)
    requires
        all_hex(h),
    ensures
        hex_digits(grouped(h)) == h,
    decreases h.len(),
{
    if h.len() == 0 {
        assert(grouped(h) =~= Seq::<char>::empty());
        reveal(Seq::filter);
        assert(hex_digits(grouped(h)) =~= h);
    } else {
        let front = h.drop_last();
        let c = h.last();
        assert(h =~= front.push(c));
        lemma_digits_of_grouped(front);
        lemma_grouped_push(front, c);
        if front.len() > 0 && front.len() % 2 == 0 {
            lemma_hex_digits_push(grouped(front), ' ');
            lemma_hex_digits_push(grouped(front).push(' '), c);
        } else {
            lemma_hex_digits_push(grouped(front), c);
        }
    }
}

/// Regrouping is idempotent: a regrouped text is its own regrouping.
pub proof fn lemma_regroup_idempotent(s: Seq<char>)
    ensures
        grouped(hex_digits(grouped(hex_digits(s)))) == grouped(hex_digits(s)),
{
    lemma_hex_digits_sound(s);
    lemma_digits_of_grouped(hex_digits(s));
}

/// A moved cursor never lands behind the end of the regrouped text, as long
/// as it was not behind the end of the text it came from.
pub proof fn lemma_moved_cursor_in_text(s: Seq<char>, cursor: nat)
    requires
        cursor <= s.len(),
    ensures
        moved_cursor(s, cursor) <= grouped(hex_digits(s)).len(),
{
    lemma_hex_digits_prefix(s, cursor as int, s.len() as int);
    assert(s.take(s.len() as int) =~= s);
}

/// A single-line hex field: its text always is a run of hex digits in pairs,
/// one space between pairs.
pub struct HexEdit {
    text: String,
}

impl View for HexEdit {
    type V = Seq<char>;

    /// The text as it stands in the field, spaces included.
    closed spec fn view(&self) -> Seq<char> {
        self.text@
    }
}

impl HexEdit {
    /// The field's invariant: the text is the grouping of its own hex digits.
    #[verifier::type_invariant]
    spec fn grouped_text(self) -> bool {
        self.text@ == grouped(hex_digits(self.text@))
    }

    /// A field that shows `s` regrouped.
    pub fn new(s: &str) -> (r: HexEdit)
        ensures
            r@ == grouped(hex_digits(s@)),
            hex_digits(r@) == hex_digits(s@),
    {
        let (text, _) = HexEdit::format_hex_and_calculate_cursor(s, 0);
        proof {
            lemma_regroup_idempotent(s@);
            lemma_hex_digits_sound(s@);
            lemma_digits_of_grouped(hex_digits(s@));
        }
        HexEdit { text }
    }

    /// The text as shown, spaces included.
    pub fn get_text_raw(&self) -> (r: String)
        ensures
            r@ == self@,
    {
        self.text.clone()
    }

    /// The text without its spaces: the hex digits alone.
    pub fn get_text(&self) -> (r: String)
        ensures
            r@ == hex_digits(self@),
            grouped(r@) == self@,
    {
        proof {
            use_type_invariant(self);
        }
        let mut out: Vec<char> = Vec::new();
        let ghost s = self.text@;
        for c in it: self.text.as_str().chars()
            invariant
                it.seq() == s,
                out@ == hex_digits(s.take(it.index())),
        {
            proof {
                assert(s.take(it.index() + 1) =~= s.take(it.index()).push(c));
                lemma_hex_digits_push(s.take(it.index()), c);
            }
            if is_hex(c) {
                out.push(c);
            }
        }
        proof {
            assert(s.take(s.len() as int) =~= s);
        }
        string_from_chars(out)
    }

    /// Replaces the text by `s` regrouped.
    pub fn set_text(&mut self, s: &str)
        ensures
            final(self)@ == grouped(hex_digits(s@)),
            hex_digits(final(self)@) == hex_digits(s@),
    {
        let (text, _) = HexEdit::format_hex_and_calculate_cursor(s, 0);
        proof {
            lemma_regroup_idempotent(s@);
            lemma_hex_digits_sound(s@);
            lemma_digits_of_grouped(hex_digits(s@));
        }
        self.text = text;
    }

    /// Takes over what the user made of the text, `edited`, with the cursor
    /// at character `cursor`. The field then shows `edited` regrouped. Where
    /// that differs from `edited`, the result is the place to put the cursor.
    pub fn apply_edit(&mut self, edited: &str, cursor: usize) -> (r: Option<usize>)
        ensures
            final(self)@ == grouped(hex_digits(edited@)),
            r == if edited@ == grouped(hex_digits(edited@)) {
                None::<usize>
            } else {
                Some(grouped_len(digits_before(edited@, cursor as nat)) as usize)
            },
            r matches Some(at) ==> at == grouped_len(digits_before(edited@, cursor as nat)),
    {
        let (text, at) = HexEdit::format_hex_and_calculate_cursor(edited, cursor);
        proof {
            lemma_regroup_idempotent(edited@);
        }
        let same = edited.to_owned() == text;
        self.text = text;
        if same {
            None
        } else {
            Some(at)
        }
    }

    /// Regroups `current_text` and says where the cursor goes.
    pub fn format_hex_and_calculate_cursor(current_text: &str, cursor_pos: usize) -> (r: (
        String,
        usize,
    ))
        ensures
            r.0@ == grouped(hex_digits(current_text@)),
            r.1 == moved_cursor(current_text@, cursor_pos as nat),
    {
        let mut out: Vec<char> = Vec::new();
        let mut digits: usize = 0;
        let mut ahead: usize = cursor_pos;
        let mut landing: usize = 0;
        let ghost s = current_text@;
        let ghost cursor = cursor_pos as int;
        for c in it: current_text.chars()
            invariant
                it.seq() == s,
                ahead == if it.index() <= cursor {
                    cursor - it.index()
                } else {
                    0
                },
                out@ == grouped(hex_digits(s.take(it.index()))),
                digits == hex_digits(s.take(it.index())).len(),
                landing == grouped_len(
                    hex_digits(
                        s.take(
                            if it.index() <= cursor {
                                it.index()
                            } else {
                                cursor
                            },
                        ),
                    ).len(),
                ),
        {
            let ghost i = it.index();
            proof {
                assert(s.take(i + 1) =~= s.take(i).push(c));
                lemma_hex_digits_push(s.take(i), c);
                lemma_grouped_push(hex_digits(s.take(i)), c);
                lemma_hex_digits_sound(s.take(i));
            }
            let counted = ahead > 0;
            if counted {
                ahead = ahead - 1;
            }
            if is_hex(c) {
                if digits > 0 && digits % 2 == 0 {
                    out.push(' ');
                }
                out.push(c);
                assert(out@.len() == grouped_len((digits + 1) as nat));
                assert(digits < out.len());
                digits = digits + 1;
                if counted {
                    landing = out.len();
                }
            }
        }
        proof {
            assert(s.take(s.len() as int) =~= s);
        }
        let text = string_from_chars(out);
        if current_text.to_owned() == text {
            (text, cursor_pos)
        } else {
            (text, landing)
        }
    }
}

} // verus!

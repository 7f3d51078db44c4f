//! The GTIN value type: a trade-item identifier held in canonical form as
//! 14 decimal digit cells, left-padded with zeros. Shorter native codes
//! (GTIN-8/12/13) occupy the trailing cells; the last cell is the check
//! digit of the GS1 mod-10 checksum.

use vstd::prelude::*;

verus! {

/// A GTIN in canonical 14-cell form. Each cell is meant to hold a decimal
/// digit in `[0, 9]`; construction from a raw array trusts the caller, so
/// [`GTIN::wf`] states that domain condition explicitly.
#[derive(Debug, PartialEq, Eq, Clone, Copy)]
pub struct GTIN(pub [u8; 14]);

/// The recognized GTIN shapes, by native length of the embedded code.
#[derive(Debug, PartialEq, Eq, Structural, Clone, Copy)]
pub enum GTINType {
    GTIN8,
    GTIN12,
    GTIN13,
    GTIN14,
}

/// Error for a malformed GTIN: a string that does not parse, or a digit
/// pattern with no recognized shape. Carries a human-readable reason.
#[derive(Debug, PartialEq, Eq, Clone, Copy)]
pub enum GTINError {
    InvalidGTIN(&'static str),
}

impl View for GTIN {
    type V = Seq<u8>;

    open spec fn view(&self) -> Seq<u8> {
        self.0@
    }
}

/// All 14 cells hold decimal digits. Parsing always establishes this;
/// construction from a raw array leaves it to the caller.
pub open spec fn wf_digits(s: Seq<u8>) -> bool {
    forall|i: int| 0 <= i < s.len() ==> s[i] <= 9
}

/// The shape of a 14-cell payload, read off the leading zero pattern:
/// the native length of the embedded code is told by where the first
/// non-zero cell sits, and GTIN-8 additionally requires the four-cell
/// all-zero gap at indices 2..=5 before its anchor cell at index 6.
pub open spec fn spec_classify(s: Seq<u8>) -> Option<GTINType>
    recommends
        s.len() == 14,
{
    if s[0] != 0 {
        Some(GTINType::GTIN14)
    } else if s[1] != 0 {
        Some(GTINType::GTIN13)
    } else if s[2] != 0 {
        Some(GTINType::GTIN12)
    } else if s[3] == 0 && s[4] == 0 && s[5] == 0 && s[6] != 0 {
        Some(GTINType::GTIN8)
    } else {
        None
    }
}

/// Number of zero cells before the first non-zero cell (or the whole
/// length if every cell is zero).
pub open spec fn spec_leading_zeros(s: Seq<u8>) -> nat
    decreases s.len(),
{
    if s.len() == 0 {
        0
    } else if s[0] != 0 {
        0
    } else {
        1 + spec_leading_zeros(s.drop_first())
    }
}

/// The anchor cell consulted during classification: the first significant
/// digit of the embedded code, non-zero whenever classification succeeds.
pub open spec fn spec_indicator_digit(s: Seq<u8>) -> u8
    recommends
        s.len() == 14,
        spec_classify(s) is Some,
{
    match spec_classify(s) {
        Some(GTINType::GTIN8) => s[6],
        Some(GTINType::GTIN12) => s[2],
        Some(GTINType::GTIN13) => s[1],
        Some(GTINType::GTIN14) => s[0],
        None => 0,
    }
}

/// GS1 weighted sum of the first `n` cells: cell `i` weighted 3 when `i`
/// is even, 1 when `i` is odd.
pub open spec fn spec_weighted_sum(s: Seq<u8>, n: int) -> int
    decreases n,
{
    if n <= 0 {
        0
    } else {
        spec_weighted_sum(s, n - 1) + s[n - 1] * (if (n - 1) % 2 == 0 {
            3int
        } else {
            1int
        })
    }
}

/// The GS1 mod-10 check digit over the 13 payload cells (indices 0..=12).
pub open spec fn spec_check_digit(s: Seq<u8>) -> int {
    (10 - spec_weighted_sum(s, 13) % 10) % 10
}

/// The stored check digit (cell 13) agrees with the one the payload
/// cells call for.
pub open spec fn spec_check_digit_valid(s: Seq<u8>) -> bool {
    s[13] == spec_check_digit(s)
}

/// Full validity: recognized shape and matching check digit.
pub open spec fn spec_valid(s: Seq<u8>) -> bool {
    spec_check_digit_valid(s) && spec_classify(s) is Some
}

/// `c` is an ASCII decimal digit character.
pub open spec fn is_digit_char(c: char) -> bool {
    48 <= c as u32 <= 57
}

/// The digit value of an ASCII decimal digit character.
pub open spec fn digit_of_char(c: char) -> u8
    recommends
        is_digit_char(c),
{
    ((c as int) - 48) as u8
}

/// The ASCII character for a digit value.
pub open spec fn char_of_digit(d: u8) -> char
    recommends
        d <= 9,
{
    (((d as int) + 48) as u8) as char
}

/// A digit character's value is a digit, and rendering that value gives
/// back the character.
proof fn lemma_char_digit_round_trip(c: char)
    requires
        is_digit_char(c),
    ensures
        digit_of_char(c) <= 9,
        char_of_digit(digit_of_char(c)) == c,
{
}

/// `s` is accepted by [`GTIN::parse`]: exactly 14 characters, all of
/// them decimal digits.
pub open spec fn spec_parseable(s: Seq<char>) -> bool {
    s.len() == 14 && (forall|i: int| 0 <= i < 14 ==> is_digit_char(#[trigger] s[i]))
}

/// The digit cells a character sequence parses to.
pub open spec fn spec_digits_of(s: Seq<char>) -> Seq<u8> {
    Seq::new(s.len(), |i: int| digit_of_char(s[i]))
}

/// The canonical textual rendering of digit cells: one ASCII digit
/// character per cell, in order.
pub open spec fn spec_render(s: Seq<u8>) -> Seq<char> {
    Seq::new(s.len(), |i: int| char_of_digit(s[i]))
}

impl GTIN {
    /// Well-formedness of this value: every cell in `[0, 9]`.
    pub open spec fn wf(&self) -> bool {
        wf_digits(self@)
    }

    /// Wraps a 14-cell digit array verbatim: no validation, no
    /// normalization. Callers bypassing string parsing are responsible for
    /// keeping every cell in `[0, 9]`.
    pub fn new(gtin: [u8; 14]) -> (r: GTIN)
        ensures
            r@ == gtin@,
    {
        GTIN(gtin)
    }

    /// The stored check digit: cell 13 verbatim, whatever is there.
    pub fn get_check_digit(&self) -> (r: u8)
        ensures
            r == self@[13],
    {
        self.0[13]
    }

    /// Classifies the payload as one of the recognized GTIN shapes, an
    /// ordered decision over the leading zero pattern; fails when no
    /// shape fits.
    pub fn get_type(&self) -> (r: Result<GTINType, GTINError>)
        ensures
            r == spec_get_type(self@),
            r is Ok <==> spec_classify(self@) is Some,
            r matches Ok(t) ==> Some(t) == spec_classify(self@),
    {
        if self.0[0] != 0 {
            Ok(GTINType::GTIN14)
        } else if self.0[1] != 0 {
            Ok(GTINType::GTIN13)
        } else if self.0[2] != 0 {
            Ok(GTINType::GTIN12)
        } else if self.0[3] == 0 && self.0[4] == 0 && self.0[5] == 0 && self.0[6] != 0 {
            Ok(GTINType::GTIN8)
        } else {
            Err(GTINError::InvalidGTIN("Invalid GTIN format"))
        }
    }

    /// Counts the zero cells before the first non-zero cell; 14 when all
    /// cells are zero. Total: no failure mode.
    pub fn get_leading_zeros(&self) -> (r: u8)
        ensures
            r == spec_leading_zeros(self@),
            r <= 14,
    {
        let mut zeros: usize = 0;
        while zeros < 14 && self.0[zeros] == 0
            invariant
                0 <= zeros <= 14,
                forall|j: int| 0 <= j < zeros ==> self@[j] == 0,
            decreases 14 - zeros,
        {
            zeros = zeros + 1;
        }
        proof {
            lemma_leading_zeros_from_prefix(self@, zeros as int);
        }
        zeros as u8
    }

    /// The indicator digit: the first significant (non-zero) digit of the
    /// classified shape, which is the anchor cell the classification
    /// decision consulted (cell 6 for GTIN-8, cell 2 for GTIN-12, cell 1
    /// for GTIN-13, cell 0 for GTIN-14). Propagates classification
    /// failure, and is proved non-zero whenever classification succeeds.
    pub fn get_indicator_digit(&self) -> (r: Result<u8, GTINError>)
        ensures
            spec_classify(self@) is Some ==> r == Ok::<u8, GTINError>(
                spec_indicator_digit(self@),
            ) && spec_indicator_digit(self@) > 0,
            spec_classify(self@) is None ==> (r matches Err(GTINError::InvalidGTIN(m)) && m@
                == "Invalid GTIN format"@),
            r is Ok <==> spec_classify(self@) is Some,
    {
        match self.get_type() {
            Ok(GTINType::GTIN8) => Ok(self.0[6]),
            Ok(GTINType::GTIN12) => Ok(self.0[2]),
            Ok(GTINType::GTIN13) => Ok(self.0[1]),
            Ok(GTINType::GTIN14) => Ok(self.0[0]),
            Err(e) => Err(e),
        }
    }

    /// The check digit the payload calls for, by the GS1 mod-10 formula:
    /// weight cell `i` (for `i` in 0..=12) by 3 when `i` is even and by 1
    /// when `i` is odd, sum, and take `(10 - sum % 10) % 10`.
    pub fn calculate_check_digit(&self) -> (r: u8)
        ensures
            r == spec_check_digit(self@),
            r <= 9,
    {
        let mut sum: u32 = 0;
        for i in 0..13usize
            invariant
                sum == spec_weighted_sum(self@, i as int),
                sum <= 765 * i,
        {
            let weight: u32 = if i % 2 == 0 {
                3
            } else {
                1
            };
            sum = sum + (self.0[i] as u32) * weight;
        }
        ((10 - (sum % 10)) % 10) as u8
    }

    /// The stored check digit agrees with the calculated one.
    pub fn is_check_digit_valid(&self) -> (r: bool)
        ensures
            r == spec_check_digit_valid(self@),
    {
        self.get_check_digit() == self.calculate_check_digit()
    }

    /// Full validity: the check digit is valid and classification
    /// succeeds. Both are demanded; neither alone is enough.
    pub fn is_valid(&self) -> (r: bool)
        ensures
            r == spec_valid(self@),
            r <==> (spec_check_digit_valid(self@) && spec_classify(self@) is Some),
    {
        self.is_check_digit_valid() && self.get_type().is_ok()
    }
}

impl GTIN {
    /// Parses the canonical textual interchange form: exactly 14 ASCII
    /// decimal digit characters, no separators, no sign. Rejects any
    /// other length and any non-digit character; never truncates. The
    /// checksum is not checked here: validity is a separate, explicit
    /// query.
    pub fn parse(s: &str) -> (r: Result<GTIN, GTINError>)
        ensures
            r is Ok <==> spec_parseable(s@),
            r matches Ok(g) ==> g@ == spec_digits_of(s@) && g.wf(),
            r is Err ==> (r matches Err(GTINError::InvalidGTIN(m)) && (if s@.len() != 14 {
                m@ == "string length is not 14"@
            } else {
                m@ == "string contains non-digit char"@
            })),
    {
        if s.unicode_len() != 14 {
            return Err(GTINError::InvalidGTIN("string length is not 14"));
        }
        let mut cells: [u8; 14] = [0; 14];
        for i in 0..14usize
            invariant
                s@.len() == 14,
                forall|j: int|
                    0 <= j < i ==> is_digit_char(#[trigger] s@[j]) && cells@[j] == digit_of_char(
                        s@[j],
                    ),
        {
            let c = s.get_char(i);
            let v = c as u32;
            if v < 48 || v > 57 {
                return Err(GTINError::InvalidGTIN("string contains non-digit char"));
            }
            cells[i] = (v - 48) as u8;
        }
        let g = GTIN(cells);
        proof {
            assert(g@ =~= spec_digits_of(s@));
            assert forall|i: int| 0 <= i < g@.len() implies g@[i] <= 9 by {
                assert(is_digit_char(s@[i]));
                lemma_char_digit_round_trip(s@[i]);
            }
        }
        Ok(g)
    }

    /// Renders all 14 cells as the canonical zero-padded 14-character
    /// decimal string, regardless of classified shape. The cells must
    /// hold digits, which parsing guarantees.
    pub fn to_string(&self) -> (r: String)
        requires
            self.wf(),
        ensures
            r@ == spec_render(self@),
            r@.len() == 14,
    {
        let mut out = String::new();
        for i in 0..14usize
            invariant
                self.wf(),
                out@ =~= spec_render(self@).subrange(0, i as int),
        {
            out.append(digit_str(self.0[i]));
            proof {
                assert(out@ =~= spec_render(self@).subrange(0, i + 1));
            }
        }
        proof {
            assert(out@ =~= spec_render(self@));
        }
        out
    }

    /// A copy of the 14 digit cells; the internal storage itself is
    /// never exposed mutably.
    pub fn as_array(&self) -> (r: [u8; 14])
        ensures
            r@ == self@,
    {
        self.0
    }
}

/// The single ASCII digit character for a digit value, as a string slice.
fn digit_str(d: u8) -> (r: &'static str)
    requires
        d <= 9,
    ensures
        r@.len() == 1,
        r@[0] == char_of_digit(d),
{
    proof {
        reveal_strlit("0");
        reveal_strlit("1");
        reveal_strlit("2");
        reveal_strlit("3");
        reveal_strlit("4");
        reveal_strlit("5");
        reveal_strlit("6");
        reveal_strlit("7");
        reveal_strlit("8");
        reveal_strlit("9");
    }
    match d {
        0 => "0",
        1 => "1",
        2 => "2",
        3 => "3",
        4 => "4",
        5 => "5",
        6 => "6",
        7 => "7",
        8 => "8",
        _ => "9",
    }
}

/// Round trip: rendering the digits a parseable string parses to gives
/// back exactly that string. Together with the contracts of
/// [`GTIN::parse`] and [`GTIN::to_string`], this states that
/// `parse(s)` followed by `to_string` reproduces `s` for every valid
/// 14-digit decimal string `s`.
pub proof fn lemma_parse_render_round_trip(s: Seq<char>)
    requires
        spec_parseable(s),
    ensures
        spec_render(spec_digits_of(s)) == s,
{
    assert forall|i: int| 0 <= i < s.len() implies spec_render(spec_digits_of(s))[i] == s[i] by {
        assert(is_digit_char(s[i]));
        lemma_char_digit_round_trip(s[i]);
    }
    assert(spec_render(spec_digits_of(s)) =~= s);
}

/// The exact result of [`GTIN::get_type`], error payload included.
pub open spec fn spec_get_type(s: Seq<u8>) -> Result<GTINType, GTINError> {
    match spec_classify(s) {
        Some(t) => Ok(t),
        None => Err(GTINError::InvalidGTIN("Invalid GTIN format")),
    }
}

/// What the leading-zero count means cell by cell: every cell before it
/// is zero, and the cell at it (when there is one) is not.
proof fn lemma_leading_zeros_bounds(s: Seq<u8>)
    ensures
        spec_leading_zeros(s) <= s.len(),
        forall|j: int| 0 <= j < spec_leading_zeros(s) ==> s[j] == 0,
        spec_leading_zeros(s) < s.len() ==> s[spec_leading_zeros(s) as int] != 0,
    decreases s.len(),
{
    if s.len() == 0 || s[0] != 0 {
    } else {
        let rest = s.drop_first();
        lemma_leading_zeros_bounds(rest);
        assert forall|j: int| 0 <= j < spec_leading_zeros(s) implies s[j] == 0 by {
            if j > 0 {
                assert(rest[j - 1] == 0);
            }
        }
        if spec_leading_zeros(s) < s.len() {
            assert(s[spec_leading_zeros(s) as int] == rest[spec_leading_zeros(rest) as int]);
        }
    }
}

/// The GTIN shapes are told apart purely by how many zero-padding cells
/// precede the first significant digit: none for GTIN-14, one for
/// GTIN-13, two for GTIN-12, and exactly six for GTIN-8 (its four-cell
/// gap at indices 2..=5 on top of the two cells a 12-digit code would
/// leave). Every other leading-zero count has no recognized shape.
pub proof fn lemma_classification_by_leading_zeros(s: Seq<u8>)
    requires
        s.len() == 14,
    ensures
        spec_classify(s) == Some(GTINType::GTIN14) <==> spec_leading_zeros(s) == 0,
        spec_classify(s) == Some(GTINType::GTIN13) <==> spec_leading_zeros(s) == 1,
        spec_classify(s) == Some(GTINType::GTIN12) <==> spec_leading_zeros(s) == 2,
        spec_classify(s) == Some(GTINType::GTIN8) <==> spec_leading_zeros(s) == 6,
        spec_classify(s) is None <==> !(spec_leading_zeros(s) == 0 || spec_leading_zeros(s) == 1
            || spec_leading_zeros(s) == 2 || spec_leading_zeros(s) == 6),
{
    lemma_leading_zeros_bounds(s);
    if s[0] != 0 {
        lemma_leading_zeros_from_prefix(s, 0);
    } else if s[1] != 0 {
        lemma_leading_zeros_from_prefix(s, 1);
    } else if s[2] != 0 {
        lemma_leading_zeros_from_prefix(s, 2);
    } else if s[3] == 0 && s[4] == 0 && s[5] == 0 && s[6] != 0 {
        lemma_leading_zeros_from_prefix(s, 6);
    }
}

/// The indicator digit of a classified GTIN is the first significant
/// digit of the value: the cell right after the zero padding, and
/// never zero.
pub proof fn lemma_indicator_is_first_significant_digit(s: Seq<u8>)
    requires
        s.len() == 14,
        spec_classify(s) is Some,
    ensures
        spec_indicator_digit(s) == s[spec_leading_zeros(s) as int],
        spec_indicator_digit(s) != 0,
{
    lemma_classification_by_leading_zeros(s);
}

/// A zero prefix of length `k` that is either the whole sequence or is
/// stopped by a non-zero cell pins the leading-zero count at `k`.
proof fn lemma_leading_zeros_from_prefix(s: Seq<u8>, k: int)
    requires
        0 <= k <= s.len(),
        forall|j: int| 0 <= j < k ==> s[j] == 0,
        k < s.len() ==> s[k] != 0,
    ensures
        spec_leading_zeros(s) == k,
    decreases s.len(),
{
    if k == 0 {
    } else {
        lemma_leading_zeros_from_prefix(s.drop_first(), k - 1);
    }
}

} // verus!

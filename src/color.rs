use vstd::prelude::*;

verus! {

/// One of the sixteen standard terminal colors: eight normal and eight bright.
#[derive(Copy, Clone, Debug, PartialEq, Eq, Structural)]
pub enum Color {
    Black,
    Red,
    Green,
    Yellow,
    Blue,
    Magenta,
    Cyan,
    White,
    BrightBlack,
    BrightRed,
    BrightGreen,
    BrightYellow,
    BrightBlue,
    BrightMagenta,
    BrightCyan,
    BrightWhite,
}

/// The position of a color in the palette: normal colors 0..8, bright ones 8..16.
pub open spec fn palette_index(c: Color) -> nat {
    match c {
        Color::Black => 0,
        Color::Red => 1,
        Color::Green => 2,
        Color::Yellow => 3,
        Color::Blue => 4,
        Color::Magenta => 5,
        Color::Cyan => 6,
        Color::White => 7,
        Color::BrightBlack => 8,
        Color::BrightRed => 9,
        Color::BrightGreen => 10,
        Color::BrightYellow => 11,
        Color::BrightBlue => 12,
        Color::BrightMagenta => 13,
        Color::BrightCyan => 14,
        Color::BrightWhite => 15,
    }
}

/// The Select Graphic Rendition parameter that sets a color as foreground:
/// 30 to 37 for the normal colors, 90 to 97 for the bright ones.
pub open spec fn fg_code(c: Color) -> nat {
    let i = palette_index(c);
    if i < 8 {
        30 + i
    } else {
        (90 + i - 8) as nat
    }
}

/// The decimal digit character of a value below ten.
pub open spec fn digit_char(d: nat) -> char {
    ((d + '0' as nat) as u8) as char
}

/// The two-digit decimal text of a number from 10 to 99.
pub open spec fn two_digit_text(n: nat) -> Seq<char> {
    seq![digit_char(n / 10), digit_char(n % 10)]
}

/// The text of a color's foreground code.
pub open spec fn fg_text(c: Color) -> Seq<char> {
    two_digit_text(fg_code(c))
}

/// Whether a number is one of the foreground codes of the palette.
pub open spec fn is_fg_code(n: nat) -> bool {
    (30 <= n && n <= 37) || (90 <= n && n <= 97)
}

impl Color {
    /// The foreground code of this color as decimal text ("30" for black,
    /// "91" for bright red), to stand between `ESC [` and `m`.
    pub fn to_fg_str(self) -> (r: &'static str)
        ensures
            r@ == fg_text(self),
    {
        proof {
            reveal_strlit("30");
            reveal_strlit("31");
            reveal_strlit("32");
            reveal_strlit("33");
            reveal_strlit("34");
            reveal_strlit("35");
            reveal_strlit("36");
            reveal_strlit("37");
            reveal_strlit("90");
            reveal_strlit("91");
            reveal_strlit("92");
            reveal_strlit("93");
            reveal_strlit("94");
            reveal_strlit("95");
            reveal_strlit("96");
            reveal_strlit("97");
        }
        let r = match self {
            Color::Black => "30",
            Color::Red => "31",
            Color::Green => "32",
            Color::Yellow => "33",
            Color::Blue => "34",
            Color::Magenta => "35",
            Color::Cyan => "36",
            Color::White => "37",
            Color::BrightBlack => "90",
            Color::BrightRed => "91",
            Color::BrightGreen => "92",
            Color::BrightYellow => "93",
            Color::BrightBlue => "94",
            Color::BrightMagenta => "95",
            Color::BrightCyan => "96",
            Color::BrightWhite => "97",
        };
        assert(r@ =~= fg_text(self));
        r
    }
}

/// Every color's foreground code is two decimal digits, no two colors share
/// one, and the codes are exactly 30 to 37 and 90 to 97.
pub proof fn lemma_fg_codes_distinct_and_complete()
    ensures
        forall|c: Color| #[trigger] fg_text(c).len() == 2,
        forall|c: Color, i: int|
            0 <= i < 2 ==> '0' <= #[trigger] fg_text(c)[i] && fg_text(c)[i] <= '9',
        forall|c: Color| #[trigger] is_fg_code(fg_code(c)),
        forall|c1: Color, c2: Color| c1 != c2 ==> #[trigger] fg_text(c1) != #[trigger] fg_text(c2),
        forall|n: nat| is_fg_code(n) ==> exists|c: Color| #[trigger] fg_code(c) == n,
{
    assert forall|c: Color, i: int| 0 <= i < 2 implies '0' <= #[trigger] fg_text(c)[i] && fg_text(c)[i] <= '9' by {
        let n = fg_code(c);
        assert(n / 10 < 10 && n % 10 < 10);
    }
    assert forall|c1: Color, c2: Color| c1 != c2 implies #[trigger] fg_text(c1) != #[trigger] fg_text(c2) by {
        let a = fg_code(c1);
        let b = fg_code(c2);
        assert(palette_index(c1) != palette_index(c2));
        assert(a != b);
        if fg_text(c1) == fg_text(c2) {
            assert(fg_text(c1)[0] == fg_text(c2)[0]);
            assert(fg_text(c1)[1] == fg_text(c2)[1]);
            assert(a / 10 == b / 10);
            assert(a % 10 == b % 10);
        }
    }
    assert forall|n: nat| is_fg_code(n) implies exists|c: Color| #[trigger] fg_code(c) == n by {
        let c = if n == 30 { Color::Black } else if n == 31 { Color::Red } else if n == 32 {
            Color::Green
        } else if n == 33 { Color::Yellow } else if n == 34 { Color::Blue } else if n == 35 {
            Color::Magenta
        } else if n == 36 { Color::Cyan } else if n == 37 { Color::White } else if n == 90 {
            Color::BrightBlack
        } else if n == 91 { Color::BrightRed } else if n == 92 { Color::BrightGreen } else if n
            == 93 { Color::BrightYellow } else if n == 94 { Color::BrightBlue } else if n == 95 {
            Color::BrightMagenta
        } else if n == 96 { Color::BrightCyan } else { Color::BrightWhite };
        assert(fg_code(c) == n);
    }
}

/// The text of a color's foreground code depends on the color alone: two
/// results of `to_fg_str` on the same color are the same text.
pub proof fn lemma_fg_str_stable(c: Color, first: Seq<char>, second: Seq<char>)
    requires
        first == fg_text(c),
        second == fg_text(c),
    ensures
        first == second,
{
}

} // verus!

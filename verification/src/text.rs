//! Textual rendering: exact decimal forms of the raw fixed-point or
//! integer components, for the vectors' debug strings and the matrix
//! grid dump.  The rendering is verified character by character against
//! the spec-level decimal strings.

use vstd::prelude::*;
use vstd::string::StringExecFns;

use crate::matrix::Mat4x4;
use crate::vec2::Vec2fx;
use crate::vec2::Vec2i;
use crate::vec3::Vec3fx;
use crate::vec3::Vec3i;

verus! {

/// The character for one decimal digit.
pub open spec fn digit_char(d: int) -> char {
    if d == 0 {
        '0'
    } else if d == 1 {
        '1'
    } else if d == 2 {
        '2'
    } else if d == 3 {
        '3'
    } else if d == 4 {
        '4'
    } else if d == 5 {
        '5'
    } else if d == 6 {
        '6'
    } else if d == 7 {
        '7'
    } else if d == 8 {
        '8'
    } else {
        '9'
    }
}

/// Decimal digits of a nonnegative number, most significant first.
pub open spec fn dec_digits(n: int) -> Seq<char>
    recommends
        n >= 0,
    decreases n,
{
    if n < 10 {
        seq![digit_char(n)]
    } else {
        dec_digits(n / 10).push(digit_char(n % 10))
    }
}

/// Decimal rendering of a signed number: a minus sign before the
/// digits of the magnitude.
pub open spec fn dec_str(n: int) -> Seq<char> {
    if n < 0 {
        "-"@ + dec_digits(-n)
    } else {
        dec_digits(n)
    }
}

/// The debug form `(x, y)` of a pair.
pub open spec fn pair_str(x: int, y: int) -> Seq<char> {
    "("@ + dec_str(x) + ", "@ + dec_str(y) + ")"@
}

/// The debug form `(x, y, z)` of a triple.
pub open spec fn triple_str(x: int, y: int, z: int) -> Seq<char> {
    "("@ + dec_str(x) + ", "@ + dec_str(y) + ", "@ + dec_str(z) + ")"@
}

/// One row of the matrix dump: the four entries of a storage row,
/// each followed by a space, between vertical bars.
pub open spec fn row_str(a: int, b: int, c: int, d: int) -> Seq<char> {
    "|"@ + dec_str(a) + " "@ + dec_str(b) + " "@ + dec_str(c) + " "@ + dec_str(d) + " |\n"@
}

/// The full matrix dump: a rule, the four rows (row `r` reads the
/// entries `(c, r)` across the columns), and a closing rule.
pub open spec fn mat_str(m: Mat4x4) -> Seq<char> {
    "----------\n"@ + row_str(m.d00 as int, m.d10 as int, m.d20 as int, m.d30 as int) + row_str(
        m.d01 as int,
        m.d11 as int,
        m.d21 as int,
        m.d31 as int,
    ) + row_str(m.d02 as int, m.d12 as int, m.d22 as int, m.d32 as int) + row_str(
        m.d03 as int,
        m.d13 as int,
        m.d23 as int,
        m.d33 as int,
    ) + "----------\n"@
}

/// Append the character of one digit.
fn push_digit(s: &mut String, d: u64)
    requires
        d < 10,
    ensures
        final(s)@ == old(s)@ + seq![digit_char(d as int)],
{
    if d == 0 {
        s.append("0");
        proof {
            reveal_strlit("0");
            assert(final(s)@ =~= old(s)@ + seq![digit_char(d as int)]);
        }
    } else if d == 1 {
        s.append("1");
        proof {
            reveal_strlit("1");
            assert(final(s)@ =~= old(s)@ + seq![digit_char(d as int)]);
        }
    } else if d == 2 {
        s.append("2");
        proof {
            reveal_strlit("2");
            assert(final(s)@ =~= old(s)@ + seq![digit_char(d as int)]);
        }
    } else if d == 3 {
        s.append("3");
        proof {
            reveal_strlit("3");
            assert(final(s)@ =~= old(s)@ + seq![digit_char(d as int)]);
        }
    } else if d == 4 {
        s.append("4");
        proof {
            reveal_strlit("4");
            assert(final(s)@ =~= old(s)@ + seq![digit_char(d as int)]);
        }
    } else if d == 5 {
        s.append("5");
        proof {
            reveal_strlit("5");
            assert(final(s)@ =~= old(s)@ + seq![digit_char(d as int)]);
        }
    } else if d == 6 {
        s.append("6");
        proof {
            reveal_strlit("6");
            assert(final(s)@ =~= old(s)@ + seq![digit_char(d as int)]);
        }
    } else if d == 7 {
        s.append("7");
        proof {
            reveal_strlit("7");
            assert(final(s)@ =~= old(s)@ + seq![digit_char(d as int)]);
        }
    } else if d == 8 {
        s.append("8");
        proof {
            reveal_strlit("8");
            assert(final(s)@ =~= old(s)@ + seq![digit_char(d as int)]);
        }
    } else {
        s.append("9");
        proof {
            reveal_strlit("9");
            assert(final(s)@ =~= old(s)@ + seq![digit_char(d as int)]);
        }
    }
}

/// Append the decimal digits of a nonnegative number.
fn append_u64(s: &mut String, n: u64)
    ensures
        final(s)@ == old(s)@ + dec_digits(n as int),
    decreases n,
{
    if n < 10 {
        push_digit(s, n);
    } else {
        append_u64(s, n / 10);
        push_digit(s, n % 10);
        proof {
            assert(final(s)@ =~= old(s)@ + dec_digits(n as int));
        }
    }
}

/// Append the decimal rendering of a signed number.
fn append_i64(s: &mut String, n: i64)
    ensures
        final(s)@ == old(s)@ + dec_str(n as int),
{
    if n >= 0 {
        append_u64(s, n as u64);
    } else {
        s.append("-");
        let m: u64 = if n == i64::MIN {
            9223372036854775808u64
        } else {
            (-n) as u64
        };
        append_u64(s, m);
        proof {
            assert(final(s)@ =~= old(s)@ + dec_str(n as int));
        }
    }
}

impl Vec2fx {
    /// The debug string `(x, y)` of the raw fixed-point components.
    pub fn to_str(&self) -> (r: String)
        ensures
            r@ == pair_str(self.x as int, self.y as int),
    {
        let mut s = String::new();
        s.append("(");
        append_i64(&mut s, self.x);
        s.append(", ");
        append_i64(&mut s, self.y);
        s.append(")");
        proof {
            assert(s@ =~= pair_str(self.x as int, self.y as int));
        }
        s
    }
}

impl Vec2i {
    /// The debug string `(x, y)` of the components.
    pub fn to_str(&self) -> (r: String)
        ensures
            r@ == pair_str(self.x as int, self.y as int),
    {
        let mut s = String::new();
        s.append("(");
        append_i64(&mut s, self.x as i64);
        s.append(", ");
        append_i64(&mut s, self.y as i64);
        s.append(")");
        proof {
            assert(s@ =~= pair_str(self.x as int, self.y as int));
        }
        s
    }
}

impl Vec3fx {
    /// The debug string `(x, y, z)` of the raw fixed-point components.
    pub fn to_str(&self) -> (r: String)
        ensures
            r@ == triple_str(self.x as int, self.y as int, self.z as int),
    {
        let mut s = String::new();
        s.append("(");
        append_i64(&mut s, self.x);
        s.append(", ");
        append_i64(&mut s, self.y);
        s.append(", ");
        append_i64(&mut s, self.z);
        s.append(")");
        proof {
            assert(s@ =~= triple_str(self.x as int, self.y as int, self.z as int));
        }
        s
    }
}

impl Vec3i {
    /// The debug string `(x, y, z)` of the components.
    pub fn to_str(&self) -> (r: String)
        ensures
            r@ == triple_str(self.x as int, self.y as int, self.z as int),
    {
        let mut s = String::new();
        s.append("(");
        append_i64(&mut s, self.x as i64);
        s.append(", ");
        append_i64(&mut s, self.y as i64);
        s.append(", ");
        append_i64(&mut s, self.z as i64);
        s.append(")");
        proof {
            assert(s@ =~= triple_str(self.x as int, self.y as int, self.z as int));
        }
        s
    }
}

/// Append one row of the matrix dump.
fn append_row(s: &mut String, a: i64, b: i64, c: i64, d: i64)
    ensures
        final(s)@ == old(s)@ + row_str(a as int, b as int, c as int, d as int),
{
    s.append("|");
    append_i64(s, a);
    s.append(" ");
    append_i64(s, b);
    s.append(" ");
    append_i64(s, c);
    s.append(" ");
    append_i64(s, d);
    s.append(" |\n");
    proof {
        assert(final(s)@ =~= old(s)@ + row_str(a as int, b as int, c as int, d as int));
    }
}

impl Mat4x4 {
    /// The grid dump of the matrix, row by row between rules, each
    /// entry in exact decimal (raw fixed-point units).
    pub fn show(&self) -> (r: String)
        ensures
            r@ == mat_str(*self),
    {
        let mut s = String::new();
        s.append("----------\n");
        append_row(&mut s, self.d00, self.d10, self.d20, self.d30);
        append_row(&mut s, self.d01, self.d11, self.d21, self.d31);
        append_row(&mut s, self.d02, self.d12, self.d22, self.d32);
        append_row(&mut s, self.d03, self.d13, self.d23, self.d33);
        s.append("----------\n");
        proof {
            assert(s@ =~= mat_str(*self));
        }
        s
    }
}

} // verus!

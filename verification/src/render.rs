//! The stable textual form of layouts and recorded actions.
//!
//! The rendering is the sole external representation of a recorded event:
//! the operation name, an indented `old_layout:` line for resizing
//! operations, an indented `layout:` or `new_layout:` line, and an indented
//! `address:` line holding the address or the failure marker.

use vstd::prelude::*;

use crate::event::{Action, Kind, Layout};

verus! {

/// The character standing for one digit value below sixteen.
pub open spec fn digit_char(d: int) -> char {
    if d == 0 {
        '0'
    } else if d == 1 {
        '1'
    } else if d == 2 {
        '2'
    } else if d == 3 {
        '3'
    } else if d == 4 {
        '4'
    } else if d == 5 {
        '5'
    } else if d == 6 {
        '6'
    } else if d == 7 {
        '7'
    } else if d == 8 {
        '8'
    } else if d == 9 {
        '9'
    } else if d == 10 {
        'a'
    } else if d == 11 {
        'b'
    } else if d == 12 {
        'c'
    } else if d == 13 {
        'd'
    } else if d == 14 {
        'e'
    } else {
        'f'
    }
}

/// The base-`base` numeral of `n`, most significant digit first, without
/// leading zeros (the numeral of zero is the single digit `0`).
pub open spec fn digits(n: int, base: int) -> Seq<char>
    recommends
        0 <= n,
        2 <= base <= 16,
    decreases n
        when 0 <= n && 2 <= base
        via digits_decreases
{
    if n < base {
        seq![digit_char(n)]
    } else {
        digits(n / base, base).push(digit_char(n % base))
    }
}

#[via_fn]
proof fn digits_decreases(n: int, base: int) {
    if n >= base {
        vstd::arithmetic::div_mod::lemma_div_decreases(n, base);
    }
}

/// The rendering of a layout: `{ size: S, align: A }` with both numbers in
/// decimal.
pub open spec fn layout_text(l: Layout) -> Seq<char> {
    "{ size: "@ + digits(l.size as int, 10) + ", align: "@ + digits(l.align as int, 10) + " }"@
}

/// The operation-name line of each kind.
pub open spec fn kind_name(k: Kind) -> Seq<char> {
    match k {
        Kind::Allocate => "allocate"@,
        Kind::Deallocate => "deallocate"@,
        Kind::AllocateZeroed => "allocate_zeroed"@,
        Kind::Grow(_) => "grow"@,
        Kind::GrowZeroed(_) => "grow_zeroed"@,
        Kind::Shrink(_) => "shrink"@,
    }
}

/// The indented `old_layout:` line carried only by the resizing kinds.
pub open spec fn old_layout_text(k: Kind) -> Seq<char> {
    match k {
        Kind::Grow(l) => "\n\told_layout: "@ + layout_text(l),
        Kind::GrowZeroed(l) => "\n\told_layout: "@ + layout_text(l),
        Kind::Shrink(l) => "\n\told_layout: "@ + layout_text(l),
        _ => Seq::<char>::empty(),
    }
}

/// The label of the layout line: `new_layout:` for resizing kinds,
/// `layout:` for the others.
pub open spec fn layout_label(k: Kind) -> Seq<char> {
    if k.is_resizing() {
        "\n\tnew_layout: "@
    } else {
        "\n\tlayout: "@
    }
}

/// The indented address line: the address in hexadecimal when present, the
/// failure marker when absent.
pub open spec fn address_text(addr: Option<usize>) -> Seq<char> {
    match addr {
        Some(a) => "\n\taddress: 0x"@ + digits(a as int, 16) + "\n"@,
        None => "\n\taddress: Allocation Error\n"@,
    }
}

/// The full rendering of one recorded action.
pub open spec fn action_text(a: Action) -> Seq<char> {
    kind_name(a.kind) + old_layout_text(a.kind) + layout_label(a.kind) + layout_text(a.layout)
        + address_text(a.addr)
}

/// The one-character string of a digit value below sixteen.
fn digit_str(d: usize) -> (r: &'static str)
    requires
        d < 16,
    ensures
        r@ == seq![digit_char(d as int)],
{
    proof {
        reveal_strlit("0");
        reveal_strlit("1");
        reveal_strlit("2");
        reveal_strlit("3");
        reveal_strlit("4");
        reveal_strlit("5");
        reveal_strlit("6");
        reveal_strlit("7");
        reveal_strlit("8");
        reveal_strlit("9");
        reveal_strlit("a");
        reveal_strlit("b");
        reveal_strlit("c");
        reveal_strlit("d");
        reveal_strlit("e");
        reveal_strlit("f");
        assert("0"@ =~= seq!['0']);
        assert("1"@ =~= seq!['1']);
        assert("2"@ =~= seq!['2']);
        assert("3"@ =~= seq!['3']);
        assert("4"@ =~= seq!['4']);
        assert("5"@ =~= seq!['5']);
        assert("6"@ =~= seq!['6']);
        assert("7"@ =~= seq!['7']);
        assert("8"@ =~= seq!['8']);
        assert("9"@ =~= seq!['9']);
        assert("a"@ =~= seq!['a']);
        assert("b"@ =~= seq!['b']);
        assert("c"@ =~= seq!['c']);
        assert("d"@ =~= seq!['d']);
        assert("e"@ =~= seq!['e']);
        assert("f"@ =~= seq!['f']);
    }
    match d {
        0 => "0",
        1 => "1",
        2 => "2",
        3 => "3",
        4 => "4",
        5 => "5",
        6 => "6",
        7 => "7",
        8 => "8",
        9 => "9",
        10 => "a",
        11 => "b",
        12 => "c",
        13 => "d",
        14 => "e",
        _ => "f",
    }
}

/// Appends the base-`base` numeral of `n` to `out`.
fn push_digits(out: &mut String, n: usize, base: usize)
    requires
        2 <= base <= 16,
    ensures
        final(out)@ == old(out)@ + digits(n as int, base as int),
    decreases n,
{
    if n >= base {
        proof {
            vstd::arithmetic::div_mod::lemma_div_decreases(n as int, base as int);
        }
        push_digits(out, n / base, base);
    }
    let d = n % base;
    out.append(digit_str(d));
    proof {
        if n >= base {
            assert(digits(n as int, base as int) == digits(n as int / base as int, base as int)
                .push(digit_char(n as int % base as int)));
            assert(out@ == old(out)@ + digits(n as int / base as int, base as int) + seq![
                digit_char(d as int),
            ]);
            assert(out@ =~= old(out)@ + digits(n as int, base as int));
        } else {
            assert(digits(n as int, base as int) == seq![digit_char(n as int)]);
            assert(out@ == old(out)@ + seq![digit_char(d as int)]);
            vstd::arithmetic::div_mod::lemma_small_mod(n as nat, base as nat);
            assert(d == n);
            assert(out@ =~= old(out)@ + digits(n as int, base as int));
        }
    }
}

/// Renders a layout as `{ size: S, align: A }`.
pub fn fmt_layout(layout: &Layout) -> (r: String)
    ensures
        r@ == layout_text(*layout),
{
    let mut s = String::new();
    s.append("{ size: ");
    push_digits(&mut s, layout.size, 10);
    s.append(", align: ");
    push_digits(&mut s, layout.align, 10);
    s.append(" }");
    proof {
        assert(s@ =~= layout_text(*layout));
    }
    s
}

/// The operation-name line of a kind.
fn kind_label(k: Kind) -> (r: &'static str)
    ensures
        r@ == kind_name(k),
{
    match k {
        Kind::Allocate => "allocate",
        Kind::Deallocate => "deallocate",
        Kind::AllocateZeroed => "allocate_zeroed",
        Kind::Grow(_) => "grow",
        Kind::GrowZeroed(_) => "grow_zeroed",
        Kind::Shrink(_) => "shrink",
    }
}

/// Appends the `old_layout:` line for resizing kinds; appends nothing for
/// the others.
fn append_old_layout(s: &mut String, k: Kind)
    ensures
        final(s)@ == old(s)@ + old_layout_text(k),
{
    match k {
        Kind::Grow(l) | Kind::GrowZeroed(l) | Kind::Shrink(l) => {
            s.append("\n\told_layout: ");
            let t = fmt_layout(&l);
            s.append(t.as_str());
            proof {
                assert(s@ =~= old(s)@ + old_layout_text(k));
            }
        },
        _ => {
            proof {
                assert(s@ =~= old(s)@ + old_layout_text(k));
            }
        },
    }
}

/// Appends the address line: the address in hexadecimal, or the failure
/// marker.
fn append_address(s: &mut String, addr: Option<usize>)
    ensures
        final(s)@ == old(s)@ + address_text(addr),
{
    match addr {
        Some(a) => {
            s.append("\n\taddress: 0x");
            push_digits(s, a, 16);
            s.append("\n");
            proof {
                assert(s@ =~= old(s)@ + address_text(addr));
            }
        },
        None => {
            s.append("\n\taddress: Allocation Error\n");
        },
    }
}

impl Action {
    /// Renders the action in its stable textual form: the operation name,
    /// the `old_layout:` line for resizing kinds, the `layout:` or
    /// `new_layout:` line, and the address line, ending in a newline.
    pub fn render(&self) -> (r: String)
        ensures
            r@ == action_text(*self),
    {
        let mut s = String::new();
        s.append(kind_label(self.kind));
        append_old_layout(&mut s, self.kind);
        let label = if self.kind.is_resizing() {
            "\n\tnew_layout: "
        } else {
            "\n\tlayout: "
        };
        s.append(label);
        let t = fmt_layout(&self.layout);
        s.append(t.as_str());
        append_address(&mut s, self.addr);
        proof {
            assert(s@ =~= action_text(*self));
        }
        s
    }
}

} // verus!

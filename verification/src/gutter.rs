//! Line numbers for the gutter of a read-only view.
//!
//! Line `i` of a buffer, counted from one, is labelled with its number in
//! decimal, pushed to the right of a gutter of a given width by blanks. A
//! number too long for the gutter is written out in full.

use crate::lines::push_char;
use vstd::prelude::*;
use vstd::string::{StrSliceExecFns, StringExecFns};

verus! {

/// The character for one decimal digit.
pub open spec fn digit_char(d: nat) -> char {
    if d == 0 {
        '0'
    } else if d == 1 {
        '1'
    } else if d == 2 {
        '2'
    } else if d == 3 {
        '3'
    } else if d == 4 {
        '4'
    } else if d == 5 {
        '5'
    } else if d == 6 {
        '6'
    } else if d == 7 {
        '7'
    } else if d == 8 {
        '8'
    } else {
        '9'
    }
}

/// The decimal digits of `n`, most significant first.
pub open spec fn digits(n: nat) -> Seq<char>
    decreases n,
{
    if n < 10 {
        seq![digit_char(n)]
    } else {
        digits(n / 10).push(digit_char(n % 10))
    }
}

/// `count` blanks.
pub open spec fn blanks(count: nat) -> Seq<char> {
    Seq::new(count, |i: int| ' ')
}

/// The label of line `number` in a gutter `width` characters wide.
pub open spec fn label(number: nat, width: nat) -> Seq<char> {
    if digits(number).len() < width {
        blanks((width - digits(number).len()) as nat) + digits(number)
    } else {
        digits(number)
    }
}

/// A label fills the gutter, and ends in the digits of its number.
pub proof fn lemma_label_width(number: nat, width: nat)
    ensures
        label(number, width).len() == if digits(number).len() < width {
            width
        } else {
            digits(number).len()
        },
        label(number, width).subrange(
            label(number, width).len() - digits(number).len(),
            label(number, width).len() as int,
        ) == digits(number),
{
}

fn digit(d: usize) -> (c: char)
    requires
        d < 10,
    ensures
        c == digit_char(d as nat),
{
    if d == 0 {
        '0'
    } else if d == 1 {
        '1'
    } else if d == 2 {
        '2'
    } else if d == 3 {
        '3'
    } else if d == 4 {
        '4'
    } else if d == 5 {
        '5'
    } else if d == 6 {
        '6'
    } else if d == 7 {
        '7'
    } else if d == 8 {
        '8'
    } else {
        '9'
    }
}

/// `n` in decimal.
pub fn decimal(n: usize) -> (s: String)
    ensures
        s@ == digits(n as nat),
    decreases n,
{
    if n < 10 {
        let mut s = String::new();
        push_char(&mut s, digit(n));
        assert(s@ == seq![digit_char(n as nat)]);
        s
    } else {
        let mut s = decimal(n / 10);
        push_char(&mut s, digit(n % 10));
        s
    }
}

/// The label of line `number`: its decimal digits, with blanks before them
/// where they are fewer than `width`.
pub fn line_label(number: usize, width: usize) -> (s: String)
    ensures
        s@ == label(number as nat, width as nat),
{
    let text = decimal(number);
    let len = text.as_str().unicode_len();
    let mut s = String::new();
    let mut i: usize = len;
    while i < width
        invariant
            len <= i,
            i == len || i <= width,
            s@ == blanks((i - len) as nat),
        decreases width - i,
    {
        push_char(&mut s, ' ');
        i += 1;
        assert(s@ == blanks((i - len) as nat));
    }
    s.append(text.as_str());
    proof {
        if len < width {
            assert(i == width);
        } else {
            assert(i == len);
            assert(blanks(0) + text@ == text@);
        }
    }
    s
}

/// The labels of lines one to `count`, in order.
pub fn gutter(count: usize, width: usize) -> (labels: Vec<String>)
    ensures
        labels.len() == count,
        forall|i: int| 0 <= i < count ==> (#[trigger] labels[i])@ == label((i + 1) as nat, width as nat),
{
    let mut labels: Vec<String> = Vec::new();
    let mut i: usize = 0;
    while i < count
        invariant
            i <= count,
            labels.len() == i,
            forall|j: int| 0 <= j < i ==> (#[trigger] labels[j])@ == label((j + 1) as nat, width as nat),
        decreases count - i,
    {
        labels.push(line_label(i + 1, width));
        i += 1;
    }
    labels
}

} // verus!

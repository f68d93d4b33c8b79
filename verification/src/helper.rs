//! Rendering values to document text, and decimal rendering of page
//! numbers. Writing the rendered text to disk is the caller's job.

use vstd::prelude::*;

verus! {

/// A value that renders to the text of one output document.
pub trait ToDocument {
    /// The document text the value stands for.
    spec fn doc_view(&self) -> Seq<char>;

    /// Renders the document text.
    fn to_document(&self) -> (r: String)
        ensures
            r@ == self.doc_view(),
    ;
}

impl ToDocument for String {
    /// A string is its own document.
    open spec fn doc_view(&self) -> Seq<char> {
        self@
    }

    fn to_document(&self) -> (r: String) {
        self.clone()
    }
}

/// The document of a sequence of lines: each line followed by a
/// newline.
pub open spec fn lines_doc(lines: Seq<Seq<char>>) -> Seq<char>
    decreases lines.len(),
{
    if lines.len() == 0 {
        Seq::empty()
    } else {
        lines_doc(lines.drop_last()) + lines.last() + "\n"@
    }
}

impl ToDocument for Vec<String> {
    /// A vector of lines renders with one trailing newline per line.
    open spec fn doc_view(&self) -> Seq<char> {
        lines_doc(self.deep_view())
    }

    fn to_document(&self) -> (r: String) {
        let ghost all = self.deep_view();
        let mut out = String::new();
        let n = self.len();
        let mut i: usize = 0;
        while i < n
            invariant
                all == self.deep_view(),
                n == all.len(),
                n == self@.len(),
                i <= n,
                out@ == lines_doc(all.take(i as int)),
            decreases n - i,
        {
            out.append(self[i].as_str());
            out.append("\n");
            i += 1;
            proof {
                let j = i as int;
                assert(all.take(j).drop_last() =~= all.take(j - 1));
                assert(all.take(j).last() == all[j - 1]);
            }
        }
        proof {
            assert(all.take(n as int) =~= all);
        }
        out
    }
}

/// The decimal digit character of a value below ten.
pub open spec fn dec_digit(d: nat) -> char {
    if d == 0 {
        '0'
    } else if d == 1 {
        '1'
    } else if d == 2 {
        '2'
    } else if d == 3 {
        '3'
    } else if d == 4 {
        '4'
    } else if d == 5 {
        '5'
    } else if d == 6 {
        '6'
    } else if d == 7 {
        '7'
    } else if d == 8 {
        '8'
    } else {
        '9'
    }
}

/// The decimal rendering of a number, most significant digit first,
/// with no leading zeros (zero renders as "0").
pub open spec fn dec_str(n: nat) -> Seq<char>
    decreases n,
{
    if n < 10 {
        seq![dec_digit(n)]
    } else {
        dec_str(n / 10) + seq![dec_digit(n % 10)]
    }
}

/// The decimal rendering of a number as a string.
pub fn usize_to_string(n: usize) -> (r: String)
    ensures
        r@ == dec_str(n as nat),
    decreases n,
{
    let digit: &str = match n % 10 {
        0 => "0",
        1 => "1",
        2 => "2",
        3 => "3",
        4 => "4",
        5 => "5",
        6 => "6",
        7 => "7",
        8 => "8",
        _ => "9",
    };
    proof {
        reveal_strlit("0");
        reveal_strlit("1");
        reveal_strlit("2");
        reveal_strlit("3");
        reveal_strlit("4");
        reveal_strlit("5");
        reveal_strlit("6");
        reveal_strlit("7");
        reveal_strlit("8");
        reveal_strlit("9");
        assert(digit@ =~= seq![dec_digit((n % 10) as nat)]);
    }
    if n < 10 {
        let mut r = String::new();
        r.append(digit);
        assert(r@ =~= dec_str(n as nat));
        r
    } else {
        let mut r = usize_to_string(n / 10);
        r.append(digit);
        assert(r@ =~= dec_str(n as nat));
        r
    }
}

} // verus!

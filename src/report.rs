use vstd::prelude::*;

use crate::queues::QueueBuckets;

verus! {

/// The character of a decimal digit.
pub open spec fn digit_char(d: nat) -> char {
    if d == 0 {
        '0'
    } else if d == 1 {
        '1'
    } else if d == 2 {
        '2'
    } else if d == 3 {
        '3'
    } else if d == 4 {
        '4'
    } else if d == 5 {
        '5'
    } else if d == 6 {
        '6'
    } else if d == 7 {
        '7'
    } else if d == 8 {
        '8'
    } else {
        '9'
    }
}

/// The decimal notation of `n`, without sign or leading zeros.
pub open spec fn decimal(n: nat) -> Seq<char>
    decreases n,
{
    if n < 10 {
        seq![digit_char(n)]
    } else {
        decimal(n / 10) + seq![digit_char(n % 10)]
    }
}

/// The items of `s` in decimal, separated by a comma and a space.
pub open spec fn joined(s: Seq<usize>) -> Seq<char>
    decreases s.len(),
{
    if s.len() == 0 {
        Seq::empty()
    } else if s.len() == 1 {
        decimal(s[0] as nat)
    } else {
        joined(s.drop_last()) + seq![',', ' '] + decimal(s.last() as nat)
    }
}

/// A list of indices as the report shows it: `[0, 2, 3]`, or `[]`.
pub open spec fn list_text(s: Seq<usize>) -> Seq<char> {
    seq!['['] + joined(s) + seq![']']
}

/// One line of the report: the label, a colon and a space, then the list.
pub open spec fn line_text(label: Seq<char>, s: Seq<usize>) -> Seq<char> {
    label + seq![':', ' '] + list_text(s)
}

/// The one-character text of the decimal digit `d`.
fn digit_str(d: u64) -> (r: &'static str)
    requires
        d < 10,
    ensures
        r@ == seq![digit_char(d as nat)],
{
    if d == 0 {
        proof {
            reveal_strlit("0");
        }
        "0"
    } else if d == 1 {
        proof {
            reveal_strlit("1");
        }
        "1"
    } else if d == 2 {
        proof {
            reveal_strlit("2");
        }
        "2"
    } else if d == 3 {
        proof {
            reveal_strlit("3");
        }
        "3"
    } else if d == 4 {
        proof {
            reveal_strlit("4");
        }
        "4"
    } else if d == 5 {
        proof {
            reveal_strlit("5");
        }
        "5"
    } else if d == 6 {
        proof {
            reveal_strlit("6");
        }
        "6"
    } else if d == 7 {
        proof {
            reveal_strlit("7");
        }
        "7"
    } else if d == 8 {
        proof {
            reveal_strlit("8");
        }
        "8"
    } else {
        proof {
            reveal_strlit("9");
        }
        "9"
    }
}

/// Appends the decimal notation of `n` to `s`.
pub fn push_decimal(s: &mut String, n: u64)
    ensures
        final(s)@ == old(s)@ + decimal(n as nat),
    decreases n,
{
    if n >= 10 {
        push_decimal(s, n / 10);
    }
    s.append(digit_str(n % 10));
    assert(final(s)@ =~= old(s)@ + decimal(n as nat));
}

/// The list as the report shows it: its items in decimal, separated by a
/// comma and a space, between square brackets.
pub fn list_string(items: &Vec<usize>) -> (r: String)
    ensures
        r@ == list_text(items@),
{
    proof {
        reveal_strlit("[");
        reveal_strlit("]");
    }
    let mut s = String::from_str("[");
    let mut i: usize = 0;
    while i < items.len()
        invariant
            i <= items@.len(),
            s@ == seq!['['] + joined(items@.take(i as int)),
        decreases items@.len() - i,
    {
        proof {
            assert(items@.take(i + 1).drop_last() =~= items@.take(i as int));
            assert(items@.take(0) =~= Seq::<usize>::empty());
        }
        let ghost before = s@;
        if i > 0 {
            proof {
                reveal_strlit(", ");
            }
            s.append(", ");
        }
        push_decimal(&mut s, items[i] as u64);
        proof {
            let next = items@.take(i + 1);
            assert(next.last() == items@[i as int]);
            if i == 0 {
                assert(s@ =~= before + decimal(next[0] as nat));
            } else {
                assert(s@ =~= before + seq![',', ' '] + decimal(next.last() as nat));
            }
        }
        i = i + 1;
        assert(s@ =~= seq!['['] + joined(items@.take(i as int)));
    }
    s.append("]");
    assert(items@.take(items@.len() as int) =~= items@);
    assert(s@ =~= list_text(items@));
    s
}

/// One line of the report: `label`, a colon and a space, then the list.
pub fn report_line(label: &str, items: &Vec<usize>) -> (r: String)
    ensures
        r@ == line_text(label@, items@),
{
    proof {
        reveal_strlit(": ");
    }
    let mut s = String::from_str(label);
    s.append(": ");
    let list = list_string(items);
    s.append(list.as_str());
    assert(s@ =~= line_text(label@, items@));
    s
}

/// The four lines of the report on the buckets, in the order graphics,
/// compute, transfer, sparse binding.
pub fn report(buckets: &QueueBuckets) -> (r: Vec<String>)
    ensures
        r@.len() == 4,
        r@[0]@ == line_text("GRAPHICS"@, buckets.graphics@),
        r@[1]@ == line_text("COMPUTE"@, buckets.compute@),
        r@[2]@ == line_text("TRANSFER"@, buckets.transfer@),
        r@[3]@ == line_text("SPARSE_BINDING"@, buckets.sparse_binding@),
{
    let mut lines: Vec<String> = Vec::new();
    lines.push(report_line("GRAPHICS", &buckets.graphics));
    lines.push(report_line("COMPUTE", &buckets.compute));
    lines.push(report_line("TRANSFER", &buckets.transfer));
    lines.push(report_line("SPARSE_BINDING", &buckets.sparse_binding));
    lines
}

} // verus!

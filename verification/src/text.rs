//! The rendering capability shared by all nodes, and the text primitives
//! that the rules of the nodes are written with.
use vstd::prelude::*;

verus! {

/// A node that renders as text.
///
/// `text` is the model of the rendering: the characters that the node stands
/// for. `convert` computes it. Rendering reads the node and nothing else, so
/// two renderings of one node are the same text.
pub trait Convert {
    /// The text of this node.
    spec fn text(&self) -> Seq<char>;

    /// Renders this node.
    fn convert(&self) -> (s: String)
        ensures
            s@ == self.text(),
    ;
}

/// The character of the decimal digit `d`; `'9'` stands for anything above.
pub open spec fn digit(d: nat) -> char {
    if d == 0 {
        '0'
    } else if d == 1 {
        '1'
    } else if d == 2 {
        '2'
    } else if d == 3 {
        '3'
    } else if d == 4 {
        '4'
    } else if d == 5 {
        '5'
    } else if d == 6 {
        '6'
    } else if d == 7 {
        '7'
    } else if d == 8 {
        '8'
    } else {
        '9'
    }
}

/// The decimal digits of `n`, most significant first, without leading zeros.
pub open spec fn decimal(n: nat) -> Seq<char>
    decreases n,
{
    if n < 10 {
        seq![digit(n)]
    } else {
        decimal(n / 10).push(digit(n % 10))
    }
}

/// `depth` tab characters: the indentation of a line at nesting depth `depth`.
pub open spec fn tabs(depth: nat) -> Seq<char> {
    Seq::new(depth, |i: int| '\t')
}

/// The parts in order, with `separator` between neighbours and none after the
/// last part. No parts give the empty text.
pub open spec fn join(parts: Seq<Seq<char>>, separator: Seq<char>) -> Seq<char>
    decreases parts.len(),
{
    if parts.len() == 0 {
        Seq::empty()
    } else if parts.len() == 1 {
        parts[0]
    } else {
        join(parts.drop_last(), separator) + separator + parts.last()
    }
}

/// The views of the strings of `parts`, in order.
pub open spec fn views(parts: Seq<String>) -> Seq<Seq<char>> {
    parts.map_values(|part: String| part@)
}

fn digit_str(d: usize) -> (s: &'static str)
    requires
        d < 10,
    ensures
        s@ == seq![digit(d as nat)],
{
    proof {
        reveal_strlit("0");
        reveal_strlit("1");
        reveal_strlit("2");
        reveal_strlit("3");
        reveal_strlit("4");
        reveal_strlit("5");
        reveal_strlit("6");
        reveal_strlit("7");
        reveal_strlit("8");
        reveal_strlit("9");
    }
    let s = match d {
        0 => "0",
        1 => "1",
        2 => "2",
        3 => "3",
        4 => "4",
        5 => "5",
        6 => "6",
        7 => "7",
        8 => "8",
        _ => "9",
    };
    assert(s@ =~= seq![digit(d as nat)]);
    s
}

/// Writes `n` in decimal.
pub(crate) fn decimal_string(n: usize) -> (s: String)
    ensures
        s@ == decimal(n as nat),
    decreases n,
{
    if n < 10 {
        String::from_str(digit_str(n))
    } else {
        let mut s = decimal_string(n / 10);
        s.append(digit_str(n % 10));
        assert(s@ =~= decimal(n as nat));
        s
    }
}

/// Builds the indentation of a line at nesting depth `depth`.
pub(crate) fn indentation(depth: usize) -> (s: String)
    ensures
        s@ == tabs(depth as nat),
{
    let mut s = String::new();
    let mut i: usize = 0;
    while i < depth
        invariant
            i <= depth,
            s@ =~= tabs(i as nat),
        decreases depth - i,
    {
        proof {
            reveal_strlit("\t");
        }
        s.append("\t");
        i = i + 1;
    }
    s
}

/// The indentation one level below `indent`.
pub(crate) fn deeper(indent: &String) -> (s: String)
    requires
        indent@ == tabs(indent@.len()),
    ensures
        s@ == tabs(indent@.len() + 1),
{
    let mut s = indent.clone();
    proof {
        reveal_strlit("\t");
    }
    s.append("\t");
    assert(s@ =~= tabs(indent@.len() + 1));
    s
}

/// Joins rendered parts with `separator` between neighbours.
pub(crate) fn join_strings(parts: &Vec<String>, separator: &str) -> (s: String)
    ensures
        s@ == join(views(parts@), separator@),
{
    let mut s = String::new();
    let mut i: usize = 0;
    while i < parts.len()
        invariant
            i <= parts@.len(),
            s@ == join(views(parts@.take(i as int)), separator@),
        decreases parts@.len() - i,
    {
        proof {
            let before = views(parts@.take(i as int));
            let after = views(parts@.take(i + 1));
            assert(after.drop_last() =~= before);
            assert(after.last() == parts@[i as int]@);
        }
        if i > 0 {
            s.append(separator);
        }
        s.append(parts[i].as_str());
        i = i + 1;
    }
    proof {
        assert(parts@.take(i as int) =~= parts@);
    }
    s
}

impl Convert for usize {
    /// An integer literal is the decimal digits of its value.
    open spec fn text(&self) -> Seq<char> {
        decimal(*self as nat)
    }

    fn convert(&self) -> (s: String) {
        decimal_string(*self)
    }
}

} // verus!

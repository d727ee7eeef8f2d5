use vstd::prelude::*;
use crate::text::{append_int, int_text};

verus! {

/// A value passed to a message for one of its placeholders.
#[derive(Debug)]
pub enum ArgValue {
    Int(i64),
    Text(String),
}

/// A named argument of a translation request.
#[derive(Debug)]
pub struct Arg {
    pub name: String,
    pub value: ArgValue,
}

/// One piece of a message: literal text, or a placeholder for a named argument.
#[derive(Debug)]
pub enum Segment {
    Text(String),
    Var(String),
}

/// A message pattern: its pieces in order.
#[derive(Debug)]
pub struct Message {
    pub segments: Vec<Segment>,
}

/// Why a message could not be formatted.
#[derive(Debug)]
pub enum FormatError {
    /// A placeholder names an argument that was not given.
    MissingArgument(String),
}

/// The text an argument value contributes to a formatted message.
pub open spec fn value_text(v: ArgValue) -> Seq<char> {
    match v {
        ArgValue::Int(i) => int_text(i as int),
        ArgValue::Text(s) => s@,
    }
}

/// The position of the first argument named `name` among the first `n`.
pub open spec fn arg_pos(args: Seq<Arg>, name: Seq<char>, n: nat) -> Option<int>
    decreases n,
{
    if n == 0 {
        None
    } else {
        match arg_pos(args, name, (n - 1) as nat) {
            Some(p) => Some(p),
            None => if args[n - 1].name@ == name {
                Some(n - 1)
            } else {
                None
            },
        }
    }
}

/// The text of the argument named `name`, if one is given (the first one).
pub open spec fn arg_text(args: Seq<Arg>, name: Seq<char>) -> Option<Seq<char>> {
    match arg_pos(args, name, args.len()) {
        Some(p) => Some(value_text(args[p].value)),
        None => None,
    }
}

/// The first `n` segments formatted with `args`: their texts joined, or the
/// name of the first placeholder for which no argument is given.
pub open spec fn render(segs: Seq<Segment>, args: Seq<Arg>, n: nat) -> Result<Seq<char>, Seq<char>>
    decreases n,
{
    if n == 0 {
        Ok(Seq::empty())
    } else {
        match render(segs, args, (n - 1) as nat) {
            Err(missing) => Err(missing),
            Ok(t) => match segs[n - 1] {
                Segment::Text(s) => Ok(t + s@),
                Segment::Var(name) => match arg_text(args, name@) {
                    Some(v) => Ok(t + v),
                    None => Err(name@),
                },
            },
        }
    }
}

/// A message formatted with `args`: the formatted text, or the name of the
/// first placeholder for which no argument is given.
pub open spec fn formatted(m: Message, args: Seq<Arg>) -> Result<Seq<char>, Seq<char>> {
    render(m.segments@, args, m.segments@.len())
}

proof fn lemma_arg_pos_bound(args: Seq<Arg>, name: Seq<char>, n: nat)
    ensures
        arg_pos(args, name, n) matches Some(p) ==> 0 <= p < n && args[p].name@ == name,
    decreases n,
{
    if n > 0 {
        lemma_arg_pos_bound(args, name, (n - 1) as nat);
    }
}

proof fn lemma_arg_pos_stable(args: Seq<Arg>, name: Seq<char>, n: nat, m: nat)
    requires
        n <= m,
        arg_pos(args, name, n) is Some,
    ensures
        arg_pos(args, name, m) == arg_pos(args, name, n),
    decreases m - n,
{
    if n < m {
        lemma_arg_pos_stable(args, name, n, (m - 1) as nat);
    }
}

/// The position of the first argument named `name`, if any.
pub fn find_arg(args: &Vec<Arg>, name: &String) -> (r: Option<usize>)
    ensures
        r matches Some(p) ==> arg_pos(args@, name@, args@.len()) == Some(p as int),
        r is None ==> arg_pos(args@, name@, args@.len()) is None,
{
    let mut i: usize = 0;
    while i < args.len()
        invariant
            i <= args@.len(),
            arg_pos(args@, name@, i as nat) is None,
        decreases args@.len() - i,
    {
        if args[i].name == *name {
            proof {
                lemma_arg_pos_stable(args@, name@, (i + 1) as nat, args@.len());
            }
            return Some(i);
        }
        i = i + 1;
    }
    None
}

/// Appends the text of an argument value to `out`.
pub fn append_value(out: &mut String, v: &ArgValue)
    ensures
        final(out)@ == old(out)@ + value_text(*v),
{
    match v {
        ArgValue::Int(i) => append_int(out, *i),
        ArgValue::Text(s) => out.append(s.as_str()),
    }
}

impl Message {
    /// Formats this message with `args`: each placeholder takes the text of the
    /// argument of its name. Fails with the name of the first placeholder for
    /// which no argument is given; arguments that no placeholder names are unused.
    pub fn format(&self, args: &Vec<Arg>) -> (r: Result<String, FormatError>)
        ensures
            r matches Ok(t) ==> formatted(*self, args@) == Ok::<Seq<char>, Seq<char>>(t@),
            r matches Err(FormatError::MissingArgument(n)) ==> formatted(*self, args@) == Err::<Seq<char>, Seq<char>>(n@),
    {
        let mut out = String::new();
        let mut i: usize = 0;
        while i < self.segments.len()
            invariant
                i <= self.segments@.len(),
                render(self.segments@, args@, i as nat) == Ok::<Seq<char>, Seq<char>>(out@),
            decreases self.segments@.len() - i,
        {
            match &self.segments[i] {
                Segment::Text(s) => {
                    out.append(s.as_str());
                },
                Segment::Var(name) => {
                    match find_arg(args, name) {
                        Some(p) => {
                            proof {
                                lemma_arg_pos_bound(args@, name@, args@.len());
                            }
                            append_value(&mut out, &args[p].value);
                        },
                        None => {
                            proof {
                                assert(render(self.segments@, args@, (i + 1) as nat) == Err::<Seq<char>, Seq<char>>(name@));
                                lemma_render_err_stable(self.segments@, args@, (i + 1) as nat, self.segments@.len());
                            }
                            return Err(FormatError::MissingArgument(name.clone()));
                        },
                    }
                },
            }
            i = i + 1;
        }
        Ok(out)
    }
}

/// A message with a placeholder for which no argument is given cannot be
/// formatted: formatting fails and names a missing argument.
pub proof fn lemma_missing_argument_fails(m: Message, args: Seq<Arg>, i: int)
    requires
        0 <= i < m.segments@.len(),
        m.segments@[i] matches Segment::Var(name) && arg_text(args, name@) is None,
    ensures
        formatted(m, args) is Err,
{
    lemma_render_fails_after(m.segments@, args, i, m.segments@.len());
}

proof fn lemma_render_fails_after(segs: Seq<Segment>, args: Seq<Arg>, i: int, n: nat)
    requires
        0 <= i < n <= segs.len(),
        segs[i] matches Segment::Var(name) && arg_text(args, name@) is None,
    ensures
        render(segs, args, n) is Err,
    decreases n,
{
    if n - 1 > i {
        lemma_render_fails_after(segs, args, i, (n - 1) as nat);
    }
}

proof fn lemma_render_err_stable(segs: Seq<Segment>, args: Seq<Arg>, n: nat, m: nat)
    requires
        n <= m,
        render(segs, args, n) is Err,
    ensures
        render(segs, args, m) == render(segs, args, n),
    decreases m - n,
{
    if n < m {
        lemma_render_err_stable(segs, args, n, (m - 1) as nat);
    }
}

} // verus!

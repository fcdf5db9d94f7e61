//! Reading and rewriting the argument vector of the wrapped tool.
//!
//! Three flags are known: `--write`, `--name` and `--description`. Each is
//! followed by a value; the last argument has no value behind it and is
//! therefore never read as a flag.

use crate::text::{is_text, texts};
use crate::trusted::{base64_standard, encode_base64};
use vstd::prelude::*;

verus! {

/// `arg` is one of the flags whose value is rewritten.
pub open spec fn is_known_flag(arg: Seq<char>) -> bool {
    arg == "--write"@ || arg == "--name"@ || arg == "--description"@
}

/// What the values behind the known flags are replaced by.
pub struct ModifyOptions<'a> {
    /// The build output, where its path can be written as text.
    pub write_output: Option<&'a str>,
    pub name: &'a str,
    /// Handed on in base64.
    pub description: &'a str,
}

/// What `ModifyOptions` holds, mathematically.
pub struct Replacements {
    pub write_output: Option<Seq<char>>,
    pub name: Seq<char>,
    pub description: Seq<char>,
}

impl<'a> View for ModifyOptions<'a> {
    type V = Replacements;

    open spec fn view(&self) -> Replacements {
        Replacements {
            write_output: match self.write_output {
                Some(path) => Some(path@),
                None => None,
            },
            name: self.name@,
            description: self.description@,
        }
    }
}

/// A flag whose value could not be rewritten.
#[derive(Debug, PartialEq, Eq, Structural, Clone, Copy)]
pub enum RewriteWarning {
    /// The build output has no path that can be written as text, so the values
    /// behind `--write` were left as they stood.
    OutputPathNotText,
}

/// What stands at place `j` after rewriting: the replacement where the
/// argument before it is a known flag, and the argument itself otherwise.
pub open spec fn rewritten(args: Seq<Seq<char>>, j: int, with: Replacements) -> Seq<char> {
    if j < 1 || j >= args.len() {
        args[j]
    } else if args[j - 1] == "--write"@ {
        match with.write_output {
            Some(path) => path,
            None => args[j],
        }
    } else if args[j - 1] == "--name"@ {
        with.name
    } else if args[j - 1] == "--description"@ {
        base64_standard(with.description)
    } else {
        args[j]
    }
}

/// `--write` stands somewhere before the last argument.
pub open spec fn write_has_value(args: Seq<Seq<char>>) -> bool {
    exists|i: int| 0 <= i && i + 1 < args.len() && #[trigger] args[i] == "--write"@
}

/// Replaces the value behind each known flag: behind `--write` the build
/// output, behind `--name` the name, behind `--description` the description in
/// base64. Flags are read from the arguments as they were handed in. Where the
/// build output has no path as text, the values behind `--write` stay; the
/// warning says so where there is such a value.
pub fn modify_args<'a>(args: &mut Vec<String>, options: &ModifyOptions<'a>) -> (r: Result<
    (),
    RewriteWarning,
>)
    ensures
        final(args)@.len() == old(args)@.len(),
        forall|j: int|
            0 <= j < old(args)@.len() ==> (#[trigger] final(args)@[j])@ == rewritten(
                texts(old(args)@),
                j,
                options@,
            ),
        r is Err <==> options@.write_output is None && entry_point_from(texts(old(args)@), 0)
            is Some,
{
    let ghost before = texts(args@);
    let kept_write = options.write_output.is_none() && entry_point(args).is_some();
    let n = args.len();
    let mut k: usize = n;
    while k > 1
        invariant
            k <= n,
            n == args@.len(),
            n == before.len(),
            forall|j: int| 0 <= j < k && j < n ==> (#[trigger] args@[j])@ == before[j],
            forall|j: int| k <= j < n ==> (#[trigger] args@[j])@ == rewritten(before, j, options@),
        decreases k,
    {
        let slot = k - 1;
        let flag = slot - 1;
        if is_text(&args[flag], "--write") {
            match options.write_output {
                Some(path) => {
                    args[slot] = path.to_owned();
                },
                None => {},
            }
        } else if is_text(&args[flag], "--name") {
            args[slot] = options.name.to_owned();
        } else if is_text(&args[flag], "--description") {
            args[slot] = encode_base64(options.description);
        }
        k = slot;
    }
    if kept_write {
        Err(RewriteWarning::OutputPathNotText)
    } else {
        Ok(())
    }
}

/// Whether `--write` stands anywhere among the arguments.
pub fn has_write(args: &Vec<String>) -> (r: bool)
    ensures
        r == texts(args@).contains("--write"@),
{
    let mut i: usize = 0;
    while i < args.len()
        invariant
            i <= args@.len(),
            forall|j: int| 0 <= j < i ==> texts(args@)[j] != "--write"@,
        decreases args@.len() - i,
    {
        if is_text(&args[i], "--write") {
            assert(texts(args@)[i as int] == "--write"@);
            return true;
        }
        i = i + 1;
    }
    false
}

/// The value behind the first `--write` at or after place `from` that has a
/// value behind it.
pub open spec fn entry_point_from(args: Seq<Seq<char>>, from: int) -> Option<Seq<char>>
    decreases args.len() - from,
{
    if from < 0 || from + 1 >= args.len() {
        None
    } else if args[from] == "--write"@ {
        Some(args[from + 1])
    } else {
        entry_point_from(args, from + 1)
    }
}

/// The path that is being compiled: the value behind the first `--write`.
/// There is none where `--write` is absent or stands last.
pub fn entry_point(args: &Vec<String>) -> (r: Option<&String>)
    ensures
        match r {
            Some(path) => entry_point_from(texts(args@), 0) == Some(path@),
            None => entry_point_from(texts(args@), 0) is None,
        },
{
    let n = args.len();
    if n == 0 {
        return None;
    }
    let mut i: usize = 0;
    while i < n - 1
        invariant
            0 < n == args@.len(),
            i < n,
            entry_point_from(texts(args@), 0) == entry_point_from(texts(args@), i as int),
        decreases n - i,
    {
        if is_text(&args[i], "--write") {
            return Some(&args[i + 1]);
        }
        i = i + 1;
    }
    None
}

/// Rewriting touches nothing but the place right behind a known flag: every
/// other argument, the first among them, stays as it was.
pub proof fn law_rewriting_keeps_other_places(args: Seq<Seq<char>>, j: int, with: Replacements)
    requires
        0 <= j < args.len(),
        j == 0 || !is_known_flag(args[j - 1]),
    ensures
        rewritten(args, j, with) == args[j],
{
}

/// Where no known flag stands right behind another, rewriting keeps every
/// known flag as it was.
pub proof fn law_rewriting_keeps_flags(args: Seq<Seq<char>>, with: Replacements)
    requires
        forall|j: int|
            1 <= j < args.len() ==> !(is_known_flag(#[trigger] args[j - 1]) && is_known_flag(
                args[j],
            )),
    ensures
        forall|j: int|
            0 <= j < args.len() && is_known_flag(#[trigger] args[j]) ==> rewritten(args, j, with)
                == args[j],
{
    assert forall|j: int| 0 <= j < args.len() && is_known_flag(#[trigger] args[j]) implies rewritten(
        args,
        j,
        with,
    ) == args[j] by {
        if j >= 1 {
            assert(!(is_known_flag(args[j - 1]) && is_known_flag(args[j])));
        }
    }
}

/// `--write` stands at place `i`, with a value behind it, and nowhere in
/// `from..i`.
pub open spec fn is_first_write(args: Seq<Seq<char>>, from: int, i: int) -> bool {
    &&& from <= i && i + 1 < args.len()
    &&& args[i] == "--write"@
    &&& forall|k: int| from <= k < i ==> #[trigger] args[k] != "--write"@
}

proof fn lemma_entry_point_from(args: Seq<Seq<char>>, from: int)
    requires
        0 <= from,
    ensures
        match entry_point_from(args, from) {
            Some(path) => exists|i: int| #[trigger] is_first_write(args, from, i) && path == args[i + 1],
            None => forall|i: int|
                from <= i && i + 1 < args.len() ==> #[trigger] args[i] != "--write"@,
        },
    decreases args.len() - from,
{
    if from + 1 < args.len() {
        if args[from] == "--write"@ {
            assert(is_first_write(args, from, from));
        } else {
            lemma_entry_point_from(args, from + 1);
            match entry_point_from(args, from + 1) {
                Some(path) => {
                    let i = choose|i: int| #[trigger]
                        is_first_write(args, from + 1, i) && path == args[i + 1];
                    assert(is_first_write(args, from, i));
                },
                None => {},
            }
        }
    }
}

/// There is no entry point exactly where `--write` is absent or stands last;
/// otherwise the entry point is the argument right behind the first `--write`
/// that is not the last argument.
pub proof fn law_entry_point(args: Seq<Seq<char>>)
    ensures
        entry_point_from(args, 0) is None <==> !write_has_value(args),
        entry_point_from(args, 0) matches Some(path) ==> exists|i: int| #[trigger]
            is_first_write(args, 0, i) && path == args[i + 1],
{
    lemma_entry_point_from(args, 0);
    match entry_point_from(args, 0) {
        Some(path) => {
            let i = choose|i: int| #[trigger] is_first_write(args, 0, i) && path == args[i + 1];
            assert(0 <= i && i + 1 < args.len() && args[i] == "--write"@);
        },
        None => {},
    }
}

} // verus!

//! Building the exact command lines that an invocation spawns: the compiler
//! call, the build-tool call, and the run of the staged binary.

use vstd::prelude::*;

verus! {

/// A command to spawn: a program name and its argument list.
pub struct CommandLine {
    pub program: String,
    pub args: Vec<String>,
}

/// The mathematical shape of a `CommandLine`.
pub struct CommandView {
    pub program: Seq<char>,
    pub args: Seq<Seq<char>>,
}

impl DeepView for CommandLine {
    type V = CommandView;

    open spec fn deep_view(&self) -> CommandView {
        CommandView { program: self.program.deep_view(), args: self.args.deep_view() }
    }
}

/// The build-tool arguments before any forwarded ones: the run action alone,
/// or the run action followed by the flag selecting the named binary.
pub open spec fn cargo_head_of(bin: Seq<char>) -> Seq<Seq<char>> {
    if bin.len() == 0 {
        seq!["run"@]
    } else {
        seq!["run"@, "--bin"@, bin]
    }
}

/// A command's arguments with the forwarded ones appended after a separator
/// token, when any were supplied.
pub open spec fn with_carried(head: Seq<Seq<char>>, carried: Option<Seq<Seq<char>>>) -> Seq<
    Seq<char>,
> {
    match carried {
        Some(cs) => head + seq!["--"@] + cs,
        None => head,
    }
}

/// The full argument list of the build-tool invocation.
pub open spec fn cargo_args_of(bin: Seq<char>, carried: Option<Seq<Seq<char>>>) -> Seq<Seq<char>> {
    with_carried(cargo_head_of(bin), carried)
}

/// The argument list handed to the staged binary: the forwarded arguments
/// verbatim, or nothing.
pub open spec fn target_args_of(carried: Option<Seq<Seq<char>>>) -> Seq<Seq<char>> {
    match carried {
        Some(cs) => cs,
        None => Seq::empty(),
    }
}

/// The compiler's argument list: the output path under its flag, then the
/// source file.
pub open spec fn compile_args_of(out: Seq<char>, source: Seq<char>) -> Seq<Seq<char>> {
    seq!["-o"@, out, source]
}

/// Copy every item of `items` onto the end of `dst`.
fn append_all(dst: &mut Vec<String>, items: &Vec<String>)
    ensures
        final(dst).deep_view() == old(dst).deep_view() + items.deep_view(),
{
    let mut i: usize = 0;
    while i < items.len()
        invariant
            i <= items.len(),
            dst.deep_view() =~= old(dst).deep_view() + items.deep_view().subrange(0, i as int),
        decreases items.len() - i,
    {
        let ghost prev = dst.deep_view();
        dst.push(items[i].clone());
        proof {
            assert(dst.deep_view() =~= prev.push(items.deep_view()[i as int]));
            assert(dst.deep_view() =~= old(dst).deep_view() + items.deep_view().subrange(
                0,
                i + 1,
            ));
        }
        i = i + 1;
    }
    proof {
        assert(final(dst).deep_view() =~= old(dst).deep_view() + items.deep_view());
    }
}

/// Build the build-tool invocation: the run action, the binary-selection flag
/// when a name is given, and the forwarded arguments after a separator.
pub fn cargo_command(bin: &str, carried: &Option<Vec<String>>) -> (c: CommandLine)
    ensures
        c.deep_view().program == "cargo"@,
        c.deep_view().args == cargo_args_of(bin@, carried.deep_view()),
{
    let mut args: Vec<String> = Vec::new();
    args.push(String::from_str("run"));
    if !bin.is_empty() {
        args.push(String::from_str("--bin"));
        args.push(String::from_str(bin));
    }
    proof {
        assert(args.deep_view() =~= cargo_head_of(bin@));
    }
    match carried {
        Some(cs) => {
            args.push(String::from_str("--"));
            proof {
                assert(args.deep_view() =~= cargo_head_of(bin@) + seq!["--"@]);
            }
            append_all(&mut args, cs);
        },
        None => {},
    }
    let c = CommandLine { program: String::from_str("cargo"), args };
    proof {
        assert(c.deep_view().args =~= cargo_args_of(bin@, carried.deep_view()));
    }
    c
}

/// Build the compiler invocation for one source file.
pub fn compile_command(out_path: &str, source: &str) -> (c: CommandLine)
    ensures
        c.deep_view().program == "rustc"@,
        c.deep_view().args == compile_args_of(out_path@, source@),
{
    let mut args: Vec<String> = Vec::new();
    args.push(String::from_str("-o"));
    args.push(String::from_str(out_path));
    args.push(String::from_str(source));
    let c = CommandLine { program: String::from_str("rustc"), args };
    proof {
        assert(c.deep_view().args =~= compile_args_of(out_path@, source@));
    }
    c
}

/// Build the run of the staged binary, forwarding the trailing arguments
/// verbatim when any were supplied.
pub fn target_command(binary: &str, carried: &Option<Vec<String>>) -> (c: CommandLine)
    ensures
        c.deep_view().program == binary@,
        c.deep_view().args == target_args_of(carried.deep_view()),
{
    let mut args: Vec<String> = Vec::new();
    match carried {
        Some(cs) => {
            append_all(&mut args, cs);
        },
        None => {},
    }
    let c = CommandLine { program: String::from_str(binary), args };
    proof {
        assert(c.deep_view().args =~= target_args_of(carried.deep_view()));
    }
    c
}

/// With no binary named, the build-tool invocation carries no selection flag
/// before the separator: its head is the bare run action. With a binary
/// named, the selection flag and that name follow the run action.
pub proof fn lemma_bin_flag_iff_named(bin: Seq<char>)
    ensures
        bin.len() == 0 ==> cargo_head_of(bin) == seq!["run"@] && !cargo_head_of(bin).contains(
            "--bin"@,
        ),
        bin.len() > 0 ==> cargo_head_of(bin) == seq!["run"@, "--bin"@, bin],
{
    reveal_strlit("run");
    reveal_strlit("--bin");
    if bin.len() == 0 {
        assert(cargo_head_of(bin) == seq!["run"@]);
        assert("run"@.len() == 3);
        assert("--bin"@.len() == 5);
        assert(forall|i: int|
            0 <= i < cargo_head_of(bin).len() ==> cargo_head_of(bin)[i] != "--bin"@);
    }
}

/// Forwarded trailing arguments appear in the spawned command after the
/// separator token, in exactly the order supplied; a run of the staged binary
/// receives them verbatim.
pub proof fn lemma_trailing_args_in_order(bin: Seq<char>, cs: Seq<Seq<char>>)
    ensures
        cargo_args_of(bin, Some(cs)).len() == cargo_head_of(bin).len() + 1 + cs.len(),
        cargo_args_of(bin, Some(cs))[cargo_head_of(bin).len() as int] == "--"@,
        forall|i: int|
            0 <= i < cs.len() ==> cargo_args_of(bin, Some(cs))[cargo_head_of(bin).len() + 1 + i]
                == cs[i],
        target_args_of(Some(cs)) == cs,
{
}

} // verus!

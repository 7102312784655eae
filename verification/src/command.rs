//! Outcome of one external process invocation, and the pure logic that
//! interprets it: classifying an exit code, rendering an invocation as
//! text, and assembling a repository's labelled output block.

use vstd::prelude::*;

use crate::error::RepoRsError;

verus! {

use vstd::string::StringSliceAdditionalSpecFns;

/// The captured outcome of one terminated external process: its exit code
/// and its full standard output and standard error.
#[derive(Debug, PartialEq, Eq)]
pub struct ExecutionResult {
    pub exit_code: i32,
    pub stdout: Vec<u8>,
    pub stderr: Vec<u8>,
}

impl Clone for ExecutionResult {
    fn clone(&self) -> (r: Self)
        ensures
            r.exit_code == self.exit_code,
            r.stdout@ == self.stdout@,
            r.stderr@ == self.stderr@,
    {
        let r = ExecutionResult {
            exit_code: self.exit_code,
            stdout: self.stdout.clone(),
            stderr: self.stderr.clone(),
        };
        proof {
            assert(r.stdout@ =~= self.stdout@);
            assert(r.stderr@ =~= self.stderr@);
        }
        r
    }
}

impl ExecutionResult {
    /// An invocation succeeded exactly when its exit code is zero.
    pub open spec fn is_success(self) -> bool {
        self.exit_code == 0
    }
}

/// The rendered text of an invocation: the program followed by each
/// argument, separated by single spaces.
pub open spec fn invocation_text(prog: Seq<char>, args: Seq<Seq<char>>) -> Seq<char>
    decreases args.len(),
{
    if args.len() == 0 {
        prog
    } else {
        invocation_text(prog, args.drop_last()) + seq![' '] + args.last()
    }
}

/// Renders a program and its arguments as one space-separated line,
/// used to attribute a failed command in error reports.
pub fn describe_invocation(prog: &str, args: &Vec<String>) -> (r: String)
    ensures
        r@ == invocation_text(prog@, args.deep_view()),
{
    let mut text = prog.to_owned();
    let ghost all = args.deep_view();
    let mut i: usize = 0;
    while i < args.len()
        invariant
            0 <= i <= args.len(),
            all == args.deep_view(),
            all.len() == args.len(),
            text@ == invocation_text(prog@, all.take(i as int)),
        decreases args.len() - i,
    {
        proof {
            assert(all.take(i + 1).drop_last() =~= all.take(i as int));
            assert(all.take(i + 1).last() == all[i as int]);
        }
        text.append(" ");
        text.append(args[i].as_str());
        proof {
            reveal_strlit(" ");
            assert(" "@ =~= seq![' ']);
        }
        i = i + 1;
    }
    proof {
        assert(all.take(args.len() as int) =~= all);
    }
    text
}

/// Classifies a finished invocation: a zero exit code passes the captured
/// outcome through, a non-zero exit code becomes a `CommandFailed` error
/// carrying the repository key, the rendered invocation, and the full
/// captured output.
pub fn interpret_outcome(key: &String, invocation: String, result: ExecutionResult) -> (r: Result<
    ExecutionResult,
    RepoRsError,
>)
    ensures
        result.is_success() ==> (r matches Ok(out) && out == result),
        !result.is_success() ==> (r matches Err(e) && (e matches RepoRsError::CommandFailed(
            k,
            inv,
            res,
        ) && k@ == key@ && inv == invocation && res == result)),
{
    if result.exit_code == 0 {
        Ok(result)
    } else {
        Err(RepoRsError::CommandFailed(key.clone(), invocation, result))
    }
}

/// The labelled output block of one task: the header, then the standard
/// output and standard error, each preceded by a newline and included only
/// when non-empty. No block is produced when both are empty.
pub open spec fn output_block(header: Seq<u8>, out: Seq<u8>, err: Seq<u8>) -> Option<Seq<u8>> {
    if out.len() == 0 && err.len() == 0 {
        Option::None
    } else {
        Option::Some(
            header + (if out.len() > 0 {
                seq![10u8] + out
            } else {
                Seq::empty()
            }) + (if err.len() > 0 {
                seq![10u8] + err
            } else {
                Seq::empty()
            }),
        )
    }
}

/// Appends every byte of `src` to `dst`.
fn push_bytes(dst: &mut Vec<u8>, src: &Vec<u8>)
    ensures
        final(dst)@ == old(dst)@ + src@,
{
    let mut i: usize = 0;
    while i < src.len()
        invariant
            0 <= i <= src.len(),
            dst@ == old(dst)@ + src@.take(i as int),
        decreases src.len() - i,
    {
        dst.push(src[i]);
        proof {
            assert(old(dst)@ + src@.take(i + 1) =~= (old(dst)@ + src@.take(i as int)).push(
                src@[i as int],
            ));
        }
        i = i + 1;
    }
    proof {
        assert(src@.take(src@.len() as int) =~= src@);
    }
}

/// Assembles the labelled output block for one task, exactly as
/// `output_block` describes: `None` when the invocation produced no
/// output on either stream.
pub fn collect_output(header: &str, result: &ExecutionResult) -> (r: Option<Vec<u8>>)
    ensures
        match r {
            Option::Some(block) => output_block(
                header.spec_bytes(),
                result.stdout@,
                result.stderr@,
            ) == Option::Some(block@),
            Option::None => output_block(
                header.spec_bytes(),
                result.stdout@,
                result.stderr@,
            ) is None,
        },
{
    if result.stdout.len() == 0 && result.stderr.len() == 0 {
        return Option::None;
    }
    let mut block = header.as_bytes_vec();
    if result.stdout.len() > 0 {
        block.push(10u8);
        push_bytes(&mut block, &result.stdout);
    }
    if result.stderr.len() > 0 {
        block.push(10u8);
        push_bytes(&mut block, &result.stderr);
    }
    proof {
        let out = result.stdout@;
        let err = result.stderr@;
        let mid = if out.len() > 0 {
            seq![10u8] + out
        } else {
            Seq::<u8>::empty()
        };
        let tail = if err.len() > 0 {
            seq![10u8] + err
        } else {
            Seq::<u8>::empty()
        };
        assert(block@ =~= header.spec_bytes() + mid + tail);
    }
    Option::Some(block)
}

} // verus!

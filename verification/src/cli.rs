//! The command line of the headless mode:
//! `<duration_s> <freq0_hz> <freq1_hz> [phase0_deg] [phase1_deg] [amplitude_v] [offset_v]`.
use vstd::prelude::*;

verus! {

/// The number of arguments that must be given: duration and two frequencies.
pub const CLI_REQUIRED_ARGS: usize = 3;

/// The number of arguments the command line reads: the required ones, then
/// phase 0, phase 1, amplitude and offset.
pub const CLI_MAX_ARGS: usize = 7;

/// The name of argument `k` in error messages.
pub open spec fn cli_arg_name(k: int) -> Seq<char> {
    if k == 0 {
        "duration"@
    } else if k == 1 {
        "freq0"@
    } else if k == 2 {
        "freq1"@
    } else if k == 3 {
        "phase0"@
    } else if k == 4 {
        "phase1"@
    } else if k == 5 {
        "amplitude"@
    } else {
        "offset"@
    }
}

/// The name of argument `k` in error messages.
pub fn arg_name(k: usize) -> (s: &'static str)
    requires
        k < CLI_MAX_ARGS,
    ensures
        s@ == cli_arg_name(k as int),
{
    if k == 0 {
        "duration"
    } else if k == 1 {
        "freq0"
    } else if k == 2 {
        "freq1"
    } else if k == 3 {
        "phase0"
    } else if k == 4 {
        "phase1"
    } else if k == 5 {
        "amplitude"
    } else {
        "offset"
    }
}

/// The message for an argument that is not a number.
pub open spec fn invalid_text(name: Seq<char>, arg: Seq<char>) -> Seq<char> {
    "Invalid "@ + name + ": '"@ + arg + "'"@
}

/// The message for a command line with fewer than the required arguments.
pub open spec fn missing_args_text() -> Seq<char> {
    "Need: <duration_s> <freq0_hz> <freq1_hz> [phase0_deg] [phase1_deg] [amplitude_v] [offset_v]"@
}

/// How many of `len` arguments the command line reads.
pub open spec fn read_arg_count(len: int) -> int {
    if len < CLI_MAX_ARGS {
        len
    } else {
        CLI_MAX_ARGS as int
    }
}

fn invalid_message(name: &str, arg: &String) -> (e: String)
    ensures
        e@ == invalid_text(name@, arg@),
{
    let mut e = String::from_str("Invalid ");
    e.append(name);
    e.append(": '");
    e.append(arg.as_str());
    e.append("'");
    e
}

/// Checks the layout of the headless command line and returns how many of
/// the optional arguments (phase 0, phase 1, amplitude, offset, in this
/// order) are given. `numeric[k]` says whether `args[k]` reads as a number.
/// Fewer than three arguments is an error; otherwise the first of the read
/// arguments that is not a number is reported. Arguments after the seventh
/// are not read.
pub fn parse_cli_layout(args: &Vec<String>, numeric: &Vec<bool>) -> (r: Result<usize, String>)
    requires
        numeric.len() == args.len(),
    ensures
        args.len() < CLI_REQUIRED_ARGS ==> (r matches Err(m) && m@ == missing_args_text()),
        args.len() >= CLI_REQUIRED_ARGS ==> {
            let count = read_arg_count(args.len() as int);
            &&& (forall|k: int| 0 <= k < count ==> #[trigger] numeric@[k]) ==> r == Ok::<usize, String>(
                (count - CLI_REQUIRED_ARGS) as usize,
            )
            &&& forall|k: int|
                0 <= k < count && !#[trigger] numeric@[k] && (forall|j: int| 0 <= j < k ==> numeric@[j])
                    ==> (r matches Err(m) && m@ == invalid_text(cli_arg_name(k), args@[k]@))
        },
{
    let len = args.len();
    if len < CLI_REQUIRED_ARGS {
        return Err(
            String::from_str(
                "Need: <duration_s> <freq0_hz> <freq1_hz> [phase0_deg] [phase1_deg] [amplitude_v] [offset_v]",
            ),
        );
    }
    let count = if len < CLI_MAX_ARGS { len } else { CLI_MAX_ARGS };
    let mut k: usize = 0;
    while k < count
        invariant
            count == read_arg_count(len as int),
            len == args@.len() == numeric@.len(),
            len >= CLI_REQUIRED_ARGS,
            k <= count,
            forall|j: int| 0 <= j < k ==> numeric@[j],
        decreases count - k,
    {
        if !numeric[k] {
            proof {
                assert forall|i: int|
                    0 <= i < count && !#[trigger] numeric@[i] && (forall|j: int| 0 <= j < i ==> numeric@[j])
                    implies i == k by {
                    if i > k {
                        assert(numeric@[k as int]);
                    }
                }
            }
            return Err(invalid_message(arg_name(k), &args[k]));
        }
        k = k + 1;
    }
    Ok(count - CLI_REQUIRED_ARGS)
}

} // verus!

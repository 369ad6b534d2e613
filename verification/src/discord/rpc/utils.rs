//! The nonce of a command, and where Discord's pipe is.

use vstd::prelude::*;

use crate::digits::{decimal, decimal_string, push_decimal};
use crate::utils::{join_path, joined};

verus! {

/// A reading of the system clock.
#[verifier::external_type_specification]
#[verifier::external_body]
pub struct ExSystemTime(std::time::SystemTime);

/// Reads the system clock (`std::time::SystemTime::now`). Nothing is stated of
/// the reading: it is the time of the call.
#[verifier::external_body]
fn system_time_now() -> (now: std::time::SystemTime) {
    std::time::SystemTime::now()
}

/// How long after the Unix epoch `time` is (`SystemTime::duration_since` with
/// `UNIX_EPOCH`); `None` where `time` is before the epoch. Nothing more is
/// stated: a clock reading is opaque here.
#[verifier::external_body]
fn since_unix_epoch(time: &std::time::SystemTime) -> (elapsed: Option<core::time::Duration>) {
    time.duration_since(std::time::UNIX_EPOCH).ok()
}

/// The whole nanoseconds of `duration` (`Duration::as_nanos`). Nothing is
/// stated: a duration is opaque here.
#[verifier::external_body]
fn duration_nanos(duration: &core::time::Duration) -> (nanos: u128) {
    duration.as_nanos()
}

/// The nonce of a command sent `nanos` nanoseconds after the Unix epoch: the
/// number in decimal.
pub fn nonce_from_nanos(nanos: u128) -> (nonce: String)
    ensures
        nonce@ == decimal(nanos as nat),
{
    decimal_string(nanos)
}

/// The nonce of a command sent now: the nanoseconds since the Unix epoch, in
/// decimal; `None` where the system clock reads before the epoch.
pub fn get_nonce() -> (nonce: Option<String>)
    ensures
        nonce matches Some(s) ==> exists|n: nat| n <= u128::MAX && s@ == #[trigger] decimal(n),
{
    match since_unix_epoch(&system_time_now()) {
        Some(elapsed) => {
            let nanos = duration_nanos(&elapsed);
            let s = nonce_from_nanos(nanos);
            assert(s@ == decimal(nanos as nat));
            Some(s)
        },
        None => None,
    }
}

/// How many pipes Discord may have opened.
pub const IPC_PIPE_COUNT: u32 = 10;

/// The name of Discord's pipe number `index`.
pub open spec fn ipc_pipe_name(index: nat) -> Seq<char> {
    "discord-ipc-"@ + decimal(index)
}

/// The paths where Discord's pipes may be, in the directory `base`, from
/// number 0 to number 9.
pub fn ipc_pipe_candidates(base: &str) -> (candidates: Vec<String>)
    ensures
        candidates@.len() == IPC_PIPE_COUNT,
        forall|i: int|
            0 <= i < IPC_PIPE_COUNT ==> #[trigger] candidates@[i]@ == joined(
                base@,
                ipc_pipe_name(i as nat),
            ),
{
    let mut candidates: Vec<String> = Vec::new();
    let mut i: u32 = 0;
    while i < IPC_PIPE_COUNT
        invariant
            i <= IPC_PIPE_COUNT,
            candidates@.len() == i,
            forall|j: int|
                0 <= j < i ==> #[trigger] candidates@[j]@ == joined(base@, ipc_pipe_name(j as nat)),
        decreases IPC_PIPE_COUNT - i,
    {
        let mut name = String::from_str("discord-ipc-");
        push_decimal(&mut name, i as u128);
        candidates.push(join_path(base, name.as_str()));
        i = i + 1;
    }
    candidates
}

/// The last of `candidates` that exists, if any: each candidate is a path and
/// whether something exists there.
pub fn get_discord_ipc_pipe(candidates: Vec<(String, bool)>) -> (pipe: Option<String>)
    ensures
        pipe is None <==> forall|i: int| 0 <= i < candidates@.len() ==> !(#[trigger] candidates@[i]).1,
        pipe matches Some(p) ==> exists|i: int|
            0 <= i < candidates@.len() && (#[trigger] candidates@[i]).1 && candidates@[i].0 == p
                && forall|j: int| i < j < candidates@.len() ==> !(#[trigger] candidates@[j]).1,
{
    let ghost all = candidates@;
    let mut last: Option<String> = None;
    let ghost mut last_index: int = -1;
    let total = candidates.len();
    let mut rest = candidates;
    let mut i: usize = 0;
    while rest.len() > 0
        invariant
            i + rest@.len() == all.len(),
            all.len() == total,
            rest@ == all.skip(i as int),
            -1 <= last_index < i,
            last is None <==> last_index == -1,
            last is None ==> forall|j: int| 0 <= j < i ==> !(#[trigger] all[j]).1,
            last matches Some(p) ==> all[last_index].1 && all[last_index].0 == p,
            forall|j: int| last_index < j < i ==> !(#[trigger] all[j]).1,
        decreases rest@.len(),
    {
        let (candidate, exists) = rest.remove(0);
        proof {
            assert(all.skip(i + 1) =~= all.skip(i as int).drop_first());
            assert(all[i as int] == (candidate, exists));
        }
        if exists {
            last = Some(candidate);
            proof {
                last_index = i as int;
            }
        }
        i = i + 1;
    }
    proof {
        if last is Some {
            assert(all[last_index].0 == last->0);
        }
    }
    last
}

} // verus!

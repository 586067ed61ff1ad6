//! The identity that a worker process reports: `worker-{hostname}-{pid}`,
//! with the host name taken from the `hostname` command's output, else from
//! the `HOSTNAME` environment variable, else `localhost`.
use vstd::prelude::*;

use crate::text::{decimal, lemma_decimal_injective, push_char, push_decimal, push_text, spec_utf8_lossy, trim_white_space, trimmed, utf8_lossy};

verus! {

/// The host name that the command's output gives, if any: its text without
/// surrounding white space, where that is not empty.
pub open spec fn command_hostname(stdout: Option<Seq<u8>>) -> Option<Seq<char>> {
    match stdout {
        Some(bytes) => {
            let t = trimmed(spec_utf8_lossy(bytes));
            if t.len() == 0 {
                None
            } else {
                Some(t)
            }
        },
        None => None,
    }
}

/// The host name chosen from the command's output and the environment.
pub open spec fn chosen_hostname(stdout: Option<Seq<u8>>, env_hostname: Option<Seq<char>>) -> Seq<char> {
    match command_hostname(stdout) {
        Some(h) => h,
        None => match env_hostname {
            Some(e) => e,
            None => "localhost"@,
        },
    }
}

/// The machine's host name, from the standard output of the `hostname`
/// command (`None` where it could not be run) and the `HOSTNAME` variable
/// (`None` where it is unset or not Unicode): the trimmed output where it is
/// not empty, else the variable, else `localhost`.
pub fn hostname_from(command_stdout: Option<Vec<u8>>, env_hostname: Option<String>) -> (h: String)
    ensures
        h@ == chosen_hostname(
            match command_stdout {
                Some(b) => Some(b@),
                None => None,
            },
            match env_hostname {
                Some(e) => Some(e@),
                None => None,
            },
        ),
        match command_stdout {
            Some(b) => if trimmed(spec_utf8_lossy(b@)).len() > 0 {
                h@ == trimmed(spec_utf8_lossy(b@))
            } else {
                h@ == match env_hostname {
                    Some(e) => e@,
                    None => "localhost"@,
                }
            },
            None => h@ == match env_hostname {
                Some(e) => e@,
                None => "localhost"@,
            },
        },
{
    if let Some(bytes) = command_stdout {
        let decoded = utf8_lossy(bytes.as_slice());
        let t = trim_white_space(decoded.as_str());
        if t.unicode_len() > 0 {
            return t;
        }
    }
    match env_hostname {
        Some(e) => e,
        None => {
            let mut h = String::new();
            push_text(&mut h, "localhost");
            h
        },
    }
}

/// The identity of the worker on host `hostname` with process id `pid`.
pub open spec fn worker_identity_text(hostname: Seq<char>, pid: u32) -> Seq<char> {
    "worker-"@ + hostname + "-"@ + decimal(pid as nat)
}

/// `worker-{hostname}-{pid}`.
pub fn worker_identity(hostname: &str, pid: u32) -> (id: String)
    ensures
        id@ == worker_identity_text(hostname@, pid),
        id@ == "worker-"@ + hostname@ + "-"@ + decimal(pid as nat),
{
    let mut id = String::new();
    push_text(&mut id, "worker-");
    push_text(&mut id, hostname);
    push_char(&mut id, '-');
    push_decimal(&mut id, pid as u64);
    proof {
        reveal_strlit("-");
        assert(id@ =~= worker_identity_text(hostname@, pid));
    }
    id
}

/// Law: on one host, workers with different process ids report different
/// identities.
pub proof fn law_identity_distinguishes_processes(hostname: Seq<char>, pid1: u32, pid2: u32)
    requires
        pid1 != pid2,
    ensures
        worker_identity_text(hostname, pid1) != worker_identity_text(hostname, pid2),
{
    let prefix = "worker-"@ + hostname + "-"@;
    if worker_identity_text(hostname, pid1) == worker_identity_text(hostname, pid2) {
        let t1 = worker_identity_text(hostname, pid1);
        assert(t1.subrange(prefix.len() as int, t1.len() as int) =~= decimal(pid1 as nat));
        assert(t1.subrange(prefix.len() as int, t1.len() as int) =~= decimal(pid2 as nat));
        lemma_decimal_injective(pid1 as nat, pid2 as nat);
    }
}

/// Law: whenever the command's output, decoded and trimmed, is not empty,
/// it is the host name, whatever characters it holds; the environment
/// variable, and then `localhost`, are used only when the output is missing
/// or blank.
pub proof fn law_command_output_names_the_host(stdout: Option<Seq<u8>>, env_hostname: Option<Seq<char>>)
    ensures
        match stdout {
            Some(b) => if trimmed(spec_utf8_lossy(b)).len() > 0 {
                chosen_hostname(stdout, env_hostname) == trimmed(spec_utf8_lossy(b))
            } else {
                chosen_hostname(stdout, env_hostname) == match env_hostname {
                    Some(e) => e,
                    None => "localhost"@,
                }
            },
            None => chosen_hostname(stdout, env_hostname) == match env_hostname {
                Some(e) => e,
                None => "localhost"@,
            },
        },
{
}

} // verus!

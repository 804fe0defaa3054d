use vstd::prelude::*;
use vstd::string::StringExecFns;

use crate::json::{json_of_reply, reply_message, reply_to_json};

verus! {

/// A request of the control channel.
#[derive(Debug)]
pub enum Command {
    Reload,
    Status,
    Switch(String),
}

/// The decimal text of one digit.
pub open spec fn digit_text(d: nat) -> Seq<char> {
    if d == 0 {
        "0"@
    } else if d == 1 {
        "1"@
    } else if d == 2 {
        "2"@
    } else if d == 3 {
        "3"@
    } else if d == 4 {
        "4"@
    } else if d == 5 {
        "5"@
    } else if d == 6 {
        "6"@
    } else if d == 7 {
        "7"@
    } else if d == 8 {
        "8"@
    } else {
        "9"@
    }
}

/// The decimal text of `n`, without leading zeros.
pub open spec fn decimal(n: nat) -> Seq<char>
    decreases n,
{
    if n < 10 {
        digit_text(n)
    } else {
        decimal(n / 10) + digit_text(n % 10)
    }
}

fn push_decimal(s: &mut String, n: u32)
    ensures
        final(s)@ == old(s)@ + decimal(n as nat),
    decreases n,
{
    if n >= 10 {
        push_decimal(s, n / 10);
    }
    let d = n % 10;
    if d == 0 {
        s.append("0");
    } else if d == 1 {
        s.append("1");
    } else if d == 2 {
        s.append("2");
    } else if d == 3 {
        s.append("3");
    } else if d == 4 {
        s.append("4");
    } else if d == 5 {
        s.append("5");
    } else if d == 6 {
        s.append("6");
    } else if d == 7 {
        s.append("7");
    } else if d == 8 {
        s.append("8");
    } else {
        s.append("9");
    }
}

/// Where the control socket lives: under the user's runtime directory when
/// it is known, else under `/run/user/<uid>`.
pub open spec fn socket_path_spec(runtime_dir: Option<Seq<char>>, uid: nat) -> Seq<char> {
    match runtime_dir {
        Some(dir) => dir + "/auto-wlr-randr/auto-wlr-randr.sock"@,
        None => "/run/user/"@ + decimal(uid) + "/auto-wlr-randr/auto-wlr-randr.sock"@,
    }
}

pub fn socket_path_for(runtime_dir: Option<String>, uid: u32) -> (r: String)
    ensures
        r@ == socket_path_spec(
            match runtime_dir {
                Some(d) => Some(d@),
                None => None,
            },
            uid as nat,
        ),
{
    match runtime_dir {
        Some(dir) => {
            let mut path = dir;
            path.append("/auto-wlr-randr/auto-wlr-randr.sock");
            path
        },
        None => {
            let mut path = String::from_str("/run/user/");
            push_decimal(&mut path, uid);
            path.append("/auto-wlr-randr/auto-wlr-randr.sock");
            path
        },
    }
}

/// The wire text of a reply: the JSON of the tagged result.
pub fn encode_reply(reply: &Result<String, String>) -> (r: String)
    ensures
        r@ == json_of_reply(reply is Ok, reply_message(*reply)),
{
    match reply_to_json(reply) {
        Ok(text) => text,
        Err(_) => {
            proof {
                assert(false);
            }
            String::new()
        },
    }
}

} // verus!

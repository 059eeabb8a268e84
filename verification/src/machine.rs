//! Roster entries: the static description of one monitored agent, plus
//! the capability set the aggregator has learned about it so far.

use vstd::prelude::*;

use crate::system_info::Capabilities;

verus! {

/// One roster entry. `name`, `ip` and `api_port` are immutable after the
/// roster is loaded; `cap` starts out `None` and is filled in by the
/// capability prober the first time the agent answers.
#[derive(Debug, PartialEq)]
pub struct Machine {
    pub name: String,
    pub ip: String,
    pub api_port: u16,
    pub cap: Option<Capabilities>,
}

impl Clone for Machine {
    fn clone(&self) -> (r: Self)
        ensures
            r == *self,
    {
        Machine {
            name: self.name.clone(),
            ip: self.ip.clone(),
            api_port: self.api_port,
            cap: self.cap,
        }
    }
}

/// The decimal digit `d` as a character, for `0 <= d <= 9`.
pub open spec fn digit_char(d: int) -> char {
    if d == 0 {
        '0'
    } else if d == 1 {
        '1'
    } else if d == 2 {
        '2'
    } else if d == 3 {
        '3'
    } else if d == 4 {
        '4'
    } else if d == 5 {
        '5'
    } else if d == 6 {
        '6'
    } else if d == 7 {
        '7'
    } else if d == 8 {
        '8'
    } else {
        '9'
    }
}

/// The decimal digits of `n`, most significant first, with no leading
/// zero except for `n == 0` itself.
pub open spec fn dec_digits(n: int) -> Seq<char>
    recommends
        n >= 0,
    decreases n,
{
    if n < 10 {
        seq![digit_char(n)]
    } else {
        dec_digits(n / 10).push(digit_char(n % 10))
    }
}

/// The base URL of an agent's API: `http://<ip>:<port>/api`.
pub open spec fn api_url_spec(m: Machine) -> Seq<char> {
    "http://"@ + m.ip@ + ":"@ + dec_digits(m.api_port as int) + "/api"@
}

fn digit_str(d: u16) -> (s: &'static str)
    requires
        d < 10,
    ensures
        s@ == seq![digit_char(d as int)],
{
    let s: &'static str = if d == 0 {
        "0"
    } else if d == 1 {
        "1"
    } else if d == 2 {
        "2"
    } else if d == 3 {
        "3"
    } else if d == 4 {
        "4"
    } else if d == 5 {
        "5"
    } else if d == 6 {
        "6"
    } else if d == 7 {
        "7"
    } else if d == 8 {
        "8"
    } else {
        "9"
    };
    proof {
        reveal_strlit("0");
        reveal_strlit("1");
        reveal_strlit("2");
        reveal_strlit("3");
        reveal_strlit("4");
        reveal_strlit("5");
        reveal_strlit("6");
        reveal_strlit("7");
        reveal_strlit("8");
        reveal_strlit("9");
        assert(s@ =~= seq![digit_char(d as int)]);
    }
    s
}

/// Renders `n` in decimal, matching `dec_digits`.
pub fn u16_to_string(n: u16) -> (r: String)
    ensures
        r@ == dec_digits(n as int),
    decreases n,
{
    if n < 10 {
        let r = digit_str(n).to_owned();
        proof {
            assert(r@ =~= dec_digits(n as int));
        }
        r
    } else {
        let mut r = u16_to_string(n / 10);
        let d = digit_str(n % 10);
        r.append(d);
        proof {
            assert(r@ =~= dec_digits(n as int));
        }
        r
    }
}

impl Machine {
    /// The base URL under which this agent serves its API.
    pub fn api_url(&self) -> (r: String)
        ensures
            r@ == api_url_spec(*self),
    {
        let mut s = "http://".to_owned();
        s.append(self.ip.as_str());
        s.append(":");
        let port = u16_to_string(self.api_port);
        s.append(port.as_str());
        s.append("/api");
        proof {
            assert(s@ =~= api_url_spec(*self));
        }
        s
    }

    /// The full URL of one endpoint under this agent's API, e.g.
    /// `http://<ip>:<port>/api/capabilities`.
    pub fn endpoint_url(&self, api: &str) -> (r: String)
        ensures
            r@ == api_url_spec(*self) + "/"@ + api@,
    {
        let mut s = self.api_url();
        s.append("/");
        s.append(api);
        proof {
            assert(s@ =~= api_url_spec(*self) + "/"@ + api@);
        }
        s
    }
}

} // verus!

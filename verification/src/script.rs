//! The bootstrap script a UI surface runs at load time. It rewires the
//! surface's internal message-posting primitive into an HTTP POST
//! against the bridge's loopback port, and routes the HTTP outcome back
//! into the caller's success or error callback slot. The script depends
//! on nothing but the port, rendered in decimal.

use vstd::prelude::*;
use vstd::string::{StrSliceExecFns, StringExecFns};

verus! {

/// The part of the script before the port number.
pub const SCRIPT_HEAD: &'static str = "
        Object.defineProperty(__TAURI_INTERNALS__, 'postMessage', {
          value: (message) => {
            const request = new XMLHttpRequest();
            request.addEventListener('load', function () {
              let arg
              let success = this.status === 200
              try {
                arg = JSON.parse(this.response)
              } catch (e) {
                arg = e
                success = false
              }
              window[`_${success ? message.callback : message.error}`](arg)
            })
            request.open('POST', 'http://localhost:";

/// The part of the script after the port number.
pub const SCRIPT_TAIL: &'static str = "/' + window.__TAURI_INTERNALS__.metadata.currentWindow.label, true)
            request.setRequestHeader('Content-Type', 'application/json')
            request.send(JSON.stringify(message))
          }
        })
    ";

/// The decimal digit character for `d`.
pub open spec fn digit_char(d: nat) -> char {
    if d == 0 {
        '0'
    } else if d == 1 {
        '1'
    } else if d == 2 {
        '2'
    } else if d == 3 {
        '3'
    } else if d == 4 {
        '4'
    } else if d == 5 {
        '5'
    } else if d == 6 {
        '6'
    } else if d == 7 {
        '7'
    } else if d == 8 {
        '8'
    } else {
        '9'
    }
}

/// The decimal rendering of `n`, most significant digit first, with no
/// leading zero except for `n == 0` itself.
pub open spec fn spec_dec_digits(n: nat) -> Seq<char>
    decreases n,
{
    if n < 10 {
        seq![digit_char(n)]
    } else {
        spec_dec_digits(n / 10) + seq![digit_char(n % 10)]
    }
}

/// The whole script for a bridge listening on `port`.
pub open spec fn spec_script(port: u16) -> Seq<char> {
    SCRIPT_HEAD@ + spec_dec_digits(port as nat) + SCRIPT_TAIL@
}

/// The one-character string for digit `d`.
fn digit_str(d: u16) -> (r: &'static str)
    requires
        d < 10,
    ensures
        r@ == seq![digit_char(d as nat)],
{
    proof {
        reveal_strlit("0");
        reveal_strlit("1");
        reveal_strlit("2");
        reveal_strlit("3");
        reveal_strlit("4");
        reveal_strlit("5");
        reveal_strlit("6");
        reveal_strlit("7");
        reveal_strlit("8");
        reveal_strlit("9");
    }
    let r: &'static str = if d == 0 {
        "0"
    } else if d == 1 {
        "1"
    } else if d == 2 {
        "2"
    } else if d == 3 {
        "3"
    } else if d == 4 {
        "4"
    } else if d == 5 {
        "5"
    } else if d == 6 {
        "6"
    } else if d == 7 {
        "7"
    } else if d == 8 {
        "8"
    } else {
        "9"
    };
    proof {
        assert(r@ =~= seq![digit_char(d as nat)]);
    }
    r
}

/// Renders `n` in decimal, per [`spec_dec_digits`].
pub fn dec_digits(n: u16) -> (r: String)
    ensures
        r@ == spec_dec_digits(n as nat),
    decreases n,
{
    if n < 10 {
        digit_str(n).to_owned()
    } else {
        let mut s = dec_digits(n / 10);
        s.append(digit_str(n % 10));
        s
    }
}

/// Builds the bootstrap script for a bridge listening on `port`, per
/// [`spec_script`].
pub fn bootstrap_script(port: u16) -> (r: String)
    ensures
        r@ == spec_script(port),
{
    let mut s = String::from_str(SCRIPT_HEAD);
    let digits = dec_digits(port);
    s.append(digits.as_str());
    s.append(SCRIPT_TAIL);
    proof {
        assert(s@ =~= spec_script(port));
    }
    s
}

} // verus!

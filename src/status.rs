use vstd::prelude::*;

verus! {

/// The decimal digit for `d < 10`.
pub open spec fn digit_char(d: nat) -> char {
    if d == 0 {
        '0'
    } else if d == 1 {
        '1'
    } else if d == 2 {
        '2'
    } else if d == 3 {
        '3'
    } else if d == 4 {
        '4'
    } else if d == 5 {
        '5'
    } else if d == 6 {
        '6'
    } else if d == 7 {
        '7'
    } else if d == 8 {
        '8'
    } else {
        '9'
    }
}

/// The decimal notation of `n`, without leading zeros.
pub open spec fn decimal(n: nat) -> Seq<char>
    decreases n,
{
    if n < 10 {
        seq![digit_char(n)]
    } else {
        decimal(n / 10).push(digit_char(n % 10))
    }
}

/// The line that reports the Tor connection.
pub open spec fn tor_line(enabled: bool, confirmed: bool) -> Seq<char> {
    if !enabled {
        "Tor not enabled"@
    } else if confirmed {
        "Connected via Tor"@
    } else {
        "Tor connection failed"@
    }
}

fn digit_str(d: u64) -> (r: &'static str)
    requires
        d < 10,
    ensures
        r@ == seq![digit_char(d as nat)],
{
    let r = if d == 0 {
        "0"
    } else if d == 1 {
        "1"
    } else if d == 2 {
        "2"
    } else if d == 3 {
        "3"
    } else if d == 4 {
        "4"
    } else if d == 5 {
        "5"
    } else if d == 6 {
        "6"
    } else if d == 7 {
        "7"
    } else if d == 8 {
        "8"
    } else {
        "9"
    };
    proof {
        reveal_strlit("0");
        reveal_strlit("1");
        reveal_strlit("2");
        reveal_strlit("3");
        reveal_strlit("4");
        reveal_strlit("5");
        reveal_strlit("6");
        reveal_strlit("7");
        reveal_strlit("8");
        reveal_strlit("9");
    }
    assert(r@ =~= seq![digit_char(d as nat)]);
    r
}

/// The decimal notation of `n`.
pub fn decimal_string(n: u64) -> (r: String)
    ensures
        r@ == decimal(n as nat),
    decreases n,
{
    if n < 10 {
        digit_str(n).to_string()
    } else {
        let mut s = decimal_string(n / 10);
        s.append(digit_str(n % 10));
        assert(s@ =~= decimal(n as nat));
        s
    }
}

/// How the Tor connection stands: not enabled, confirmed, or failed.
pub fn tor_status(enabled: bool, confirmed: bool) -> (r: &'static str)
    ensures
        r@ == tor_line(enabled, confirmed),
{
    if !enabled {
        "Tor not enabled"
    } else if confirmed {
        "Connected via Tor"
    } else {
        "Tor connection failed"
    }
}

/// How traffic is routed: through the given proxy with its rotation
/// interval, or directly.
pub fn proxy_status(proxy: Option<&str>, interval_secs: u64) -> (r: String)
    ensures
        r@ == match proxy {
            Some(p) => "Using proxy: "@ + p@ + " (Rotation: "@ + decimal(interval_secs as nat) + "s)"@,
            None => "Direct connection"@,
        },
{
    match proxy {
        Some(p) => {
            let mut s = "Using proxy: ".to_string();
            s.append(p);
            s.append(" (Rotation: ");
            let secs = decimal_string(interval_secs);
            s.append(secs.as_str());
            s.append("s)");
            s
        },
        None => "Direct connection".to_string(),
    }
}

/// The line that reports the detected public address.
pub fn ip_status(ip: &str) -> (r: String)
    ensures
        r@ == "Public IP: "@ + ip@,
{
    let mut s = "Public IP: ".to_string();
    s.append(ip);
    s
}

} // verus!

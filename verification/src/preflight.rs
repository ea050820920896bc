use crate::text::{chars_of, decimal, push_decimal, starts_with, str_eq, str_starts_with};
use vstd::prelude::*;
use vstd::string::*;

verus! {

/// One check made before a start, with its verdict.
#[derive(Debug, Clone)]
pub struct PreflightCheck {
    pub name: String,
    pub passed: bool,
    pub message: String,
}

/// All checks made before a start, and whether every one of them passed.
#[derive(Debug, Clone)]
pub struct PreflightResult {
    pub passed: bool,
    pub checks: Vec<PreflightCheck>,
}

/// Every check of the list passed.
pub open spec fn all_passed(checks: Seq<PreflightCheck>) -> bool {
    forall|i: int| 0 <= i < checks.len() ==> (#[trigger] checks[i]).passed
}

/// Sums the checks up: the result passes exactly where every check does.
pub fn summarize(checks: Vec<PreflightCheck>) -> (result: PreflightResult)
    ensures
        result.checks@ == checks@,
        result.passed == all_passed(checks@),
{
    let mut passed = true;
    let mut i: usize = 0;
    while i < checks.len()
        invariant
            i <= checks.len(),
            passed == all_passed(checks@.take(i as int)),
        decreases checks.len() - i,
    {
        if !checks[i].passed {
            passed = false;
        }
        assert(checks@.take(i + 1).drop_last() =~= checks@.take(i as int));
        assert(all_passed(checks@.take(i + 1)) == (all_passed(checks@.take(i as int))
            && checks@[i as int].passed)) by {
            if all_passed(checks@.take(i as int)) && checks@[i as int].passed {
                assert forall|j: int| 0 <= j < i + 1 implies (#[trigger] checks@.take(
                    i + 1,
                )[j]).passed by {
                    if j < i {
                        assert(checks@.take(i as int)[j].passed);
                    }
                }
            } else if all_passed(checks@.take(i + 1)) {
                assert(checks@.take(i + 1)[i as int].passed);
                assert forall|j: int| 0 <= j < i implies (#[trigger] checks@.take(
                    i as int,
                )[j]).passed by {
                    assert(checks@.take(i + 1)[j].passed);
                }
            }
        }
        i += 1;
    }
    assert(checks@.take(checks@.len() as int) =~= checks@);
    PreflightResult { passed, checks }
}

/// A configured key has the form of a key where it begins with `0x` and is
/// 66 bytes long.
pub open spec fn key_well_formed(key: &str) -> bool {
    starts_with(key@, "0x"@) && key.spec_bytes().len() == 66
}

/// The check of the wallet's key.
pub fn key_check(private_key: &str) -> (check: PreflightCheck)
    ensures
        check.name@ == "Wallet"@,
        check.passed == key_well_formed(private_key),
        check.message@ == if key_well_formed(private_key) {
            "Private key configured"@
        } else {
            "Invalid or missing private key"@
        },
{
    let passed = str_starts_with(private_key, "0x") && private_key.as_bytes().len() == 66;
    PreflightCheck {
        name: "Wallet".to_owned(),
        passed,
        message: if passed {
            "Private key configured".to_owned()
        } else {
            "Invalid or missing private key".to_owned()
        },
    }
}

/// What is said of a service that was or was not reached.
pub open spec fn reach_message(reached: bool, url: Seq<char>) -> Seq<char> {
    if reached {
        "Connected to "@ + url
    } else {
        "Cannot reach "@ + url
    }
}

/// The check of a service that the agent depends on: it passes where the
/// service was reached.
pub fn service_check(name: &str, reached: bool, url: &str) -> (check: PreflightCheck)
    ensures
        check.name@ == name@,
        check.passed == reached,
        check.message@ == reach_message(reached, url@),
{
    let mut message = if reached {
        "Connected to ".to_owned()
    } else {
        "Cannot reach ".to_owned()
    };
    message.append(url);
    PreflightCheck { name: name.to_owned(), passed: reached, message }
}

/// What is said of the engine's port: free; freed by terminating a stale
/// engine; still held after that; or held by a process that is left alone.
pub open spec fn port_message(
    port: u16,
    free: bool,
    killed: Option<Seq<char>>,
    free_after: bool,
) -> Seq<char> {
    let number = decimal(port as nat);
    if free {
        "Port "@ + number + " available"@
    } else {
        match killed {
            Some(who) => if free_after {
                "Port "@ + number + " freed (killed leftover: "@ + who + ")"@
            } else {
                "Port "@ + number + " still in use after killing "@ + who
            },
            None => "Port "@ + number + " in use by unknown process"@,
        }
    }
}

/// Whether the engine's port can be had: it was free, or a stale engine
/// was terminated and it is free now.
pub open spec fn port_usable(free: bool, killed: Option<Seq<char>>, free_after: bool) -> bool {
    free || (killed is Some && free_after)
}

/// The check of the engine's port. `free` says whether it could be bound;
/// `killed` names the stale engines that were terminated where it could
/// not, and `free_after` says whether it could be bound after that.
pub fn port_check(port: u16, free: bool, killed: Option<&str>, free_after: bool) -> (check:
    PreflightCheck)
    ensures
        check.name@ == "HTTP Port"@,
        check.passed == port_usable(
            free,
            match killed {
                Some(who) => Some(who@),
                None => None,
            },
            free_after,
        ),
        check.message@ == port_message(
            port,
            free,
            match killed {
                Some(who) => Some(who@),
                None => None,
            },
            free_after,
        ),
{
    let mut message = "Port ".to_owned();
    push_decimal(&mut message, port as u64);
    let passed = if free {
        message.append(" available");
        true
    } else {
        match killed {
            Some(who) => {
                if free_after {
                    message.append(" freed (killed leftover: ");
                    message.append(who);
                    message.append(")");
                    true
                } else {
                    message.append(" still in use after killing ");
                    message.append(who);
                    false
                }
            },
            None => {
                message.append(" in use by unknown process");
                false
            },
        }
    };
    PreflightCheck { name: "HTTP Port".to_owned(), passed, message }
}

/// What is said of the graphics processor that was found, if any.
pub open spec fn gpu_message(gpu: Option<(Seq<char>, u64)>) -> Seq<char> {
    match gpu {
        Some((name, memory)) => if memory > 0 {
            name + " ("@ + decimal(memory as nat) + " MB)"@
        } else {
            name
        },
        None => "No GPU detected. Install GPU drivers or set GPU Layers to 0 for CPU mode."@,
    }
}

/// The check of the graphics processor, made where layers are to be
/// offloaded to one: it passes where one was found.
pub fn gpu_check(gpu: Option<(String, u64)>) -> (check: PreflightCheck)
    ensures
        check.name@ == "GPU"@,
        check.passed == gpu is Some,
        check.message@ == gpu_message(crate::system::gpu_view(gpu)),
{
    match gpu {
        Some((name, memory)) => {
            let mut message = name;
            if memory > 0 {
                message.append(" (");
                push_decimal(&mut message, memory);
                message.append(" MB)");
            }
            PreflightCheck { name: "GPU".to_owned(), passed: true, message }
        },
        None => PreflightCheck {
            name: "GPU".to_owned(),
            passed: false,
            message: "No GPU detected. Install GPU drivers or set GPU Layers to 0 for CPU mode.".to_owned(),
        },
    }
}

/// An amount is nothing where it is written `0.0000`, or with zeros only
/// before a run of points that ends it.
pub open spec fn is_zero_balance(balance: Seq<char>) -> bool {
    balance == "0.0000"@ || without_leading(without_leading(balance, '0'), '.').len() == 0
}

/// `text` without the run of `c` at its start.
pub open spec fn without_leading(text: Seq<char>, c: char) -> Seq<char>
    decreases text.len(),
{
    if text.len() > 0 && text[0] == c {
        without_leading(text.skip(1), c)
    } else {
        text
    }
}

fn skip_leading(text: &Vec<char>, from: usize, c: char) -> (at: usize)
    requires
        from <= text.len(),
    ensures
        from <= at <= text.len(),
        text@.skip(at as int) == without_leading(text@.skip(from as int), c),
{
    let mut at: usize = from;
    while at < text.len() && text[at] == c
        invariant
            from <= at <= text.len(),
            without_leading(text@.skip(at as int), c) == without_leading(
                text@.skip(from as int),
                c,
            ),
        decreases text.len() - at,
    {
        assert(text@.skip(at as int).skip(1) =~= text@.skip(at + 1));
        at += 1;
    }
    at
}

/// Whether an amount, as it is shown, is nothing.
pub fn balance_is_zero(balance: &str) -> (zero: bool)
    ensures
        zero == is_zero_balance(balance@),
{
    if str_eq(balance, "0.0000") {
        return true;
    }
    let chars = chars_of(balance);
    assert(chars@.skip(0) =~= chars@);
    let after_zeros = skip_leading(&chars, 0, '0');
    let after_points = skip_leading(&chars, after_zeros, '.');
    after_points == chars.len()
}

/// What is said of the wallet's balance. A wallet without funds passes too:
/// the agent's transactions are paid for by a sponsor.
pub open spec fn balance_message(address: Seq<char>, balance: Seq<char>) -> Seq<char> {
    if is_zero_balance(balance) {
        address + ": 0 PLM (OK \u{2014} gas is sponsored)"@
    } else {
        address + ": "@ + balance + " PLM"@
    }
}

/// The check of the wallet's balance. It passes whatever the balance is,
/// and where the balance could not be had.
pub fn balance_check(outcome: Result<(String, String), String>) -> (check: PreflightCheck)
    ensures
        check.name@ == "Wallet"@,
        check.passed,
        check.message@ == match outcome {
            Ok((balance, address)) => balance_message(address@, balance@),
            Err(why) => "Balance check skipped: "@ + why@,
        },
{
    let message = match outcome {
        Ok((balance, address)) => {
            let mut message = address;
            if balance_is_zero(balance.as_str()) {
                message.append(": 0 PLM (OK \u{2014} gas is sponsored)");
            } else {
                message.append(": ");
                message.append(balance.as_str());
                message.append(" PLM");
            }
            message
        },
        Err(why) => {
            let mut message = "Balance check skipped: ".to_owned();
            message.append(why.as_str());
            message
        },
    };
    PreflightCheck { name: "Wallet".to_owned(), passed: true, message }
}

} // verus!

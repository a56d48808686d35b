//! The text of the calculators' errors.
use vstd::prelude::*;
use vstd::string::StringExecFns;

verus! {

/// The character of the decimal digit `d`.
pub open spec fn digit_char(d: int) -> char {
    if d == 0 {
        '0'
    } else if d == 1 {
        '1'
    } else if d == 2 {
        '2'
    } else if d == 3 {
        '3'
    } else if d == 4 {
        '4'
    } else if d == 5 {
        '5'
    } else if d == 6 {
        '6'
    } else if d == 7 {
        '7'
    } else if d == 8 {
        '8'
    } else {
        '9'
    }
}

/// `n` written in decimal, without leading zeros.
pub open spec fn decimal(n: nat) -> Seq<char>
    decreases n,
{
    if n < 10 {
        seq![digit_char(n as int)]
    } else {
        decimal(n / 10) + seq![digit_char((n % 10) as int)]
    }
}

fn digit_str(d: u64) -> (r: &'static str)
    requires
        d < 10,
    ensures
        r@ == seq![digit_char(d as int)],
{
    proof {
        reveal_strlit("0");
        reveal_strlit("1");
        reveal_strlit("2");
        reveal_strlit("3");
        reveal_strlit("4");
        reveal_strlit("5");
        reveal_strlit("6");
        reveal_strlit("7");
        reveal_strlit("8");
        reveal_strlit("9");
    }
    match d {
        0 => "0",
        1 => "1",
        2 => "2",
        3 => "3",
        4 => "4",
        5 => "5",
        6 => "6",
        7 => "7",
        8 => "8",
        _ => "9",
    }
}

/// `n` written in decimal.
pub fn decimal_string(n: u64) -> (r: String)
    ensures
        r@ == decimal(n as nat),
    decreases n,
{
    if n < 10 {
        String::from_str(digit_str(n))
    } else {
        let mut s = decimal_string(n / 10);
        s.append(digit_str(n % 10));
        s
    }
}

/// Text of the error for a missing `@everyone` role of the guild `guild_id`.
pub fn everyone_role_missing(guild_id: u64) -> (r: String)
    ensures
        r@ == "@everyone role is missing for guild "@ + decimal(guild_id as nat),
{
    let mut s = String::from_str("@everyone role is missing for guild ");
    let id = decimal_string(guild_id);
    s.append(id.as_str());
    s
}

/// Text of the error for the role `role_id` that the member `user_id` holds and that is
/// missing.
pub fn member_role_missing(user_id: u64, role_id: u64) -> (r: String)
    ensures
        r@ == "member "@ + decimal(user_id as nat) + " is missing role "@ + decimal(
            role_id as nat,
        ),
{
    let mut s = String::from_str("member ");
    let user = decimal_string(user_id);
    s.append(user.as_str());
    s.append(" is missing role ");
    let role = decimal_string(role_id);
    s.append(role.as_str());
    s
}

/// Text of the error for an overwrite that is not a role's.
pub fn overwrite_not_role() -> (r: String)
    ensures
        r@ == "permission overwrite is not role overwrite"@,
{
    String::from_str("permission overwrite is not role overwrite")
}

} // verus!

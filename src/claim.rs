use vstd::prelude::*;
use vstd::string::*;

verus! {

/// Time units that must remain before an unclaimed entry expires for a claim on it to be
/// admitted, so that the settlement worker can still act on it.
pub const ADMISSION_DELAY: u64 = 300;

/// An unclaimed fund or state record as read from the chain.
pub struct UnclaimedEntry {
    pub email_addr_commit: Vec<u8>,
    pub expiry_time: u64,
}

/// An unclaimed entry that passed validation, tagged by its kind.
pub enum UnclaimType {
    Fund(UnclaimedEntry),
    State(UnclaimedEntry),
}

/// Why a claim reference was refused.
#[derive(Debug, PartialEq, Eq, Structural)]
pub enum ClaimError {
    FundExpired,
    StateExpired,
}

impl ClaimError {
    /// A human-readable description of the refusal.
    pub fn message(&self) -> (r: String)
        ensures
            r@ == match self {
                ClaimError::FundExpired => "Unclaimed fund is expired"@,
                ClaimError::StateExpired => "Unclaimed state is expired"@,
            },
    {
        match self {
            ClaimError::FundExpired => String::from_str("Unclaimed fund is expired"),
            ClaimError::StateExpired => String::from_str("Unclaimed state is expired"),
        }
    }
}

/// A request to reveal the randomness behind a commitment and claim the entry `id`.
pub struct RevealRequest {
    pub id: u64,
    pub is_fund: bool,
    pub randomness: String,
    pub email_address: String,
}

/// A validated claim, handed to the settlement worker.
pub struct Claim {
    pub id: u64,
    pub email_address: String,
    pub random: String,
    pub commit: String,
    pub expiry_time: u64,
    pub is_fund: bool,
    pub is_announced: bool,
}

/// An entry is still admissible when its expiry lies at least the admission delay after `now`.
pub open spec fn admissible(expiry_time: u64, now: u64) -> bool {
    expiry_time as int >= now as int + ADMISSION_DELAY as int
}

/// Validates the entry that the chain holds for a claim of the given kind at time `now`.
pub fn check_unclaim_valid(is_fund: bool, entry: UnclaimedEntry, now: u64) -> (r: Result<
    UnclaimType,
    ClaimError,
>)
    ensures
        admissible(entry.expiry_time, now) ==> r == if is_fund {
            Ok::<UnclaimType, ClaimError>(UnclaimType::Fund(entry))
        } else {
            Ok::<UnclaimType, ClaimError>(UnclaimType::State(entry))
        },
        !admissible(entry.expiry_time, now) ==> r == if is_fund {
            Err::<UnclaimType, ClaimError>(ClaimError::FundExpired)
        } else {
            Err::<UnclaimType, ClaimError>(ClaimError::StateExpired)
        },
{
    let expired = now > u64::MAX - ADMISSION_DELAY || entry.expiry_time < now + ADMISSION_DELAY;
    if is_fund {
        if expired {
            Err(ClaimError::FundExpired)
        } else {
            Ok(UnclaimType::Fund(entry))
        }
    } else {
        if expired {
            Err(ClaimError::StateExpired)
        } else {
            Ok(UnclaimType::State(entry))
        }
    }
}

/// The lowercase hexadecimal digits, by value.
pub open spec fn hex_digits() -> Seq<char> {
    seq!['0', '1', '2', '3', '4', '5', '6', '7', '8', '9', 'a', 'b', 'c', 'd', 'e', 'f']
}

/// Two lowercase hexadecimal digits per byte, the high half first.
pub open spec fn hex_of(b: Seq<u8>) -> Seq<char>
    decreases b.len(),
{
    if b.len() == 0 {
        Seq::empty()
    } else {
        hex_of(b.drop_last()) + seq![
            hex_digits()[b.last() as int / 16],
            hex_digits()[b.last() as int % 16],
        ]
    }
}

/// The commitment as it is written in a claim: `0x` followed by its lowercase hex digits.
pub open spec fn commit_string(b: Seq<u8>) -> Seq<char> {
    "0x"@ + hex_of(b)
}

/// The text returned when a reveal is accepted.
pub open spec fn admission_message(is_fund: bool, email: Seq<char>) -> Seq<char> {
    if is_fund {
        "Unclaimed fund for "@ + email + " is accepted"@
    } else {
        "Unclaimed state for "@ + email + " is accepted"@
    }
}

/// Relies on hex::encode: two lowercase digits per byte, the high half first.
#[verifier::external_body]
fn encode_hex(bytes: &Vec<u8>) -> (r: String)
    ensures
        r@ == hex_of(bytes@),
{
    hex::encode(bytes)
}

/// Validates a reveal against the entry that the chain holds for it and, when it is
/// admissible, builds the claim to enqueue and the acceptance text.
pub fn serve_reveal_request(payload: RevealRequest, entry: UnclaimedEntry, now: u64) -> (r: Result<
    (Claim, String),
    ClaimError,
>)
    ensures
        !admissible(entry.expiry_time, now) ==> r == if payload.is_fund {
            Err::<(Claim, String), ClaimError>(ClaimError::FundExpired)
        } else {
            Err::<(Claim, String), ClaimError>(ClaimError::StateExpired)
        },
        admissible(entry.expiry_time, now) ==> r is Ok,
        r matches Ok((c, m)) ==> {
            &&& c.id == payload.id
            &&& c.email_address@ == payload.email_address@
            &&& c.random@ == payload.randomness@
            &&& c.commit@ == commit_string(entry.email_addr_commit@)
            &&& c.expiry_time == entry.expiry_time
            &&& c.is_fund == payload.is_fund
            &&& !c.is_announced
            &&& m@ == admission_message(payload.is_fund, payload.email_address@)
        },
{
    let ghost commit_bytes = entry.email_addr_commit@;
    let ghost expiry = entry.expiry_time;
    let (validated, is_fund) = match check_unclaim_valid(payload.is_fund, entry, now) {
        Ok(UnclaimType::Fund(e)) => (e, true),
        Ok(UnclaimType::State(e)) => (e, false),
        Err(e) => {
            return Err(e);
        },
    };
    let mut commit = String::from_str("0x");
    let digits = encode_hex(&validated.email_addr_commit);
    commit.append(digits.as_str());
    let mut message = if is_fund {
        String::from_str("Unclaimed fund for ")
    } else {
        String::from_str("Unclaimed state for ")
    };
    message.append(payload.email_address.as_str());
    message.append(" is accepted");
    let claim = Claim {
        id: payload.id,
        email_address: payload.email_address,
        random: payload.randomness,
        commit,
        expiry_time: validated.expiry_time,
        is_fund,
        is_announced: false,
    };
    Ok((claim, message))
}

} // verus!

use vstd::prelude::*;

use crate::errors::AppError;

verus! {

/// The lifecycle state of a single payout round, stored as a lower-case label.
#[derive(Clone, Debug, PartialEq, Eq, Structural)]
pub enum RoundStatus {
    Pending,
    Completed,
    Cancelled,
}

impl RoundStatus {
    /// The label under which this status is persisted.
    pub open spec fn label(self) -> Seq<char> {
        match self {
            RoundStatus::Pending => "pending"@,
            RoundStatus::Completed => "completed"@,
            RoundStatus::Cancelled => "cancelled"@,
        }
    }

    /// The status a stored label denotes, if any.
    pub open spec fn spec_parse(s: Seq<char>) -> Option<RoundStatus> {
        if s == "pending"@ {
            Some(RoundStatus::Pending)
        } else if s == "completed"@ {
            Some(RoundStatus::Completed)
        } else if s == "cancelled"@ {
            Some(RoundStatus::Cancelled)
        } else {
            None
        }
    }

    pub fn to_label(&self) -> (r: String)
        ensures
            r@ == self.label(),
    {
        match self {
            RoundStatus::Pending => "pending".to_owned(),
            RoundStatus::Completed => "completed".to_owned(),
            RoundStatus::Cancelled => "cancelled".to_owned(),
        }
    }

    pub fn parse(value: &str) -> (r: Result<RoundStatus, String>)
        ensures
            match RoundStatus::spec_parse(value@) {
                Some(m) => r matches Ok(p) && p == m,
                None => r is Err,
            },
    {
        let v: String = value.to_owned();
        let pending: String = "pending".to_owned();
        let completed: String = "completed".to_owned();
        let cancelled: String = "cancelled".to_owned();
        if v == pending {
            Ok(RoundStatus::Pending)
        } else if v == completed {
            Ok(RoundStatus::Completed)
        } else if v == cancelled {
            Ok(RoundStatus::Cancelled)
        } else {
            Err("Unknown round status".to_owned())
        }
    }
}

/// Whether a new payout round is admissible: the tontine and the
/// beneficiary must exist, the beneficiary must be an active member of the
/// tontine, and the round number may not already be taken there — round
/// numbers are unique per tontine.
pub open spec fn round_admissible(
    tontine_exists: bool,
    beneficiary_exists: bool,
    beneficiary_is_member: bool,
    round_number_taken: bool,
) -> bool {
    tontine_exists && beneficiary_exists && beneficiary_is_member && !round_number_taken
}

/// The decision half of creating a round, given what the store answered
/// about the tontine, the beneficiary, and the requested round number: the
/// round is created exactly when it is admissible.
pub fn admit_round(
    tontine_exists: bool,
    beneficiary_exists: bool,
    beneficiary_is_member: bool,
    round_number_taken: bool,
) -> (r: Result<(), AppError>)
    ensures
        r is Ok <==> round_admissible(
            tontine_exists,
            beneficiary_exists,
            beneficiary_is_member,
            round_number_taken,
        ),
        r matches Err(e) ==> e matches AppError::ValidationError(_),
{
    if !tontine_exists {
        return Err(AppError::ValidationError("The specified tontine does not exist".to_owned()));
    }
    if !beneficiary_exists {
        return Err(
            AppError::ValidationError("The specified beneficiary does not exist".to_owned()),
        );
    }
    if !beneficiary_is_member {
        return Err(
            AppError::ValidationError(
                "The beneficiary is not a member of this tontine".to_owned(),
            ),
        );
    }
    if round_number_taken {
        return Err(
            AppError::ValidationError(
                "A round with this number already exists for this tontine".to_owned(),
            ),
        );
    }
    Ok(())
}

/// The number the next round of a tontine takes: one past the highest
/// number used so far, or the first.
pub fn next_round_number(highest_round: Option<i32>) -> (r: i32)
    requires
        highest_round matches Some(m) ==> m < i32::MAX,
    ensures
        r as int == match highest_round {
            Some(m) => m as int + 1,
            None => 1,
        },
{
    match highest_round {
        Some(m) => m + 1,
        None => 1,
    }
}

} // verus!

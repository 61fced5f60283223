use vstd::prelude::*;

use crate::errors::AppError;

verus! {

/// How a member paid a contribution, stored as a lower-case label.
#[derive(Clone, Debug, PartialEq, Eq, Structural)]
pub enum PaymentMethod {
    Cash,
    MobileMoney,
    BankTransfer,
}

/// Whether a contribution has been settled, stored as a lower-case label.
#[derive(Clone, Debug, PartialEq, Eq, Structural)]
pub enum PaymentStatus {
    Paid,
    Pending,
    Failed,
}

impl PaymentMethod {
    /// The label under which this method is persisted.
    pub open spec fn label(self) -> Seq<char> {
        match self {
            PaymentMethod::Cash => "cash"@,
            PaymentMethod::MobileMoney => "mobile_money"@,
            PaymentMethod::BankTransfer => "bank_transfer"@,
        }
    }

    /// The method a stored label denotes, if any.
    pub open spec fn spec_parse(s: Seq<char>) -> Option<PaymentMethod> {
        if s == "cash"@ {
            Some(PaymentMethod::Cash)
        } else if s == "mobile_money"@ {
            Some(PaymentMethod::MobileMoney)
        } else if s == "bank_transfer"@ {
            Some(PaymentMethod::BankTransfer)
        } else {
            None
        }
    }

    pub fn to_label(&self) -> (r: String)
        ensures
            r@ == self.label(),
    {
        match self {
            PaymentMethod::Cash => "cash".to_owned(),
            PaymentMethod::MobileMoney => "mobile_money".to_owned(),
            PaymentMethod::BankTransfer => "bank_transfer".to_owned(),
        }
    }

    pub fn parse(value: &str) -> (r: Result<PaymentMethod, String>)
        ensures
            match PaymentMethod::spec_parse(value@) {
                Some(m) => r matches Ok(p) && p == m,
                None => r is Err,
            },
    {
        let v: String = value.to_owned();
        let cash: String = "cash".to_owned();
        let mobile: String = "mobile_money".to_owned();
        let bank: String = "bank_transfer".to_owned();
        if v == cash {
            Ok(PaymentMethod::Cash)
        } else if v == mobile {
            Ok(PaymentMethod::MobileMoney)
        } else if v == bank {
            Ok(PaymentMethod::BankTransfer)
        } else {
            Err("Unknown payment method".to_owned())
        }
    }
}

impl PaymentStatus {
    /// The label under which this status is persisted.
    pub open spec fn label(self) -> Seq<char> {
        match self {
            PaymentStatus::Paid => "paid"@,
            PaymentStatus::Pending => "pending"@,
            PaymentStatus::Failed => "failed"@,
        }
    }

    /// The status a stored label denotes, if any.
    pub open spec fn spec_parse(s: Seq<char>) -> Option<PaymentStatus> {
        if s == "paid"@ {
            Some(PaymentStatus::Paid)
        } else if s == "pending"@ {
            Some(PaymentStatus::Pending)
        } else if s == "failed"@ {
            Some(PaymentStatus::Failed)
        } else {
            None
        }
    }

    pub fn to_label(&self) -> (r: String)
        ensures
            r@ == self.label(),
    {
        match self {
            PaymentStatus::Paid => "paid".to_owned(),
            PaymentStatus::Pending => "pending".to_owned(),
            PaymentStatus::Failed => "failed".to_owned(),
        }
    }

    pub fn parse(value: &str) -> (r: Result<PaymentStatus, String>)
        ensures
            match PaymentStatus::spec_parse(value@) {
                Some(m) => r matches Ok(p) && p == m,
                None => r is Err,
            },
    {
        let v: String = value.to_owned();
        let paid: String = "paid".to_owned();
        let pending: String = "pending".to_owned();
        let failed: String = "failed".to_owned();
        if v == paid {
            Ok(PaymentStatus::Paid)
        } else if v == pending {
            Ok(PaymentStatus::Pending)
        } else if v == failed {
            Ok(PaymentStatus::Failed)
        } else {
            Err("Unknown payment status".to_owned())
        }
    }
}

/// Whether a new contribution is admissible: the round must exist, the
/// member must exist and be active, the member must belong to the round's
/// tontine, and the member may not already have contributed to that round —
/// one contribution per member and round.
pub open spec fn contribution_admissible(
    round_exists: bool,
    member_active: bool,
    member_in_round: bool,
    already_contributed: bool,
) -> bool {
    round_exists && member_active && member_in_round && !already_contributed
}

/// The decision half of recording a contribution, given what the store
/// answered about the round and the member: the contribution is recorded
/// exactly when it is admissible.
pub fn admit_contribution(
    round_exists: bool,
    member_active: bool,
    member_in_round: bool,
    already_contributed: bool,
) -> (r: Result<(), AppError>)
    ensures
        r is Ok <==> contribution_admissible(
            round_exists,
            member_active,
            member_in_round,
            already_contributed,
        ),
        r matches Err(e) ==> e matches AppError::ValidationError(_),
{
    if !round_exists {
        return Err(AppError::ValidationError("The specified round does not exist".to_owned()));
    }
    if !member_active {
        return Err(
            AppError::ValidationError(
                "The specified member does not exist or is not active".to_owned(),
            ),
        );
    }
    if !member_in_round {
        return Err(
            AppError::ValidationError(
                "The member does not belong to this tontine and round".to_owned(),
            ),
        );
    }
    if already_contributed {
        return Err(
            AppError::ValidationError(
                "The member has already contributed to this round".to_owned(),
            ),
        );
    }
    Ok(())
}

} // verus!

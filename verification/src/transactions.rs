use vstd::prelude::*;

verus! {

/// The direction of a money movement, stored as a lower-case label.
#[derive(Clone, Debug, PartialEq, Eq, Structural)]
pub enum TransactionType {
    Contribution,
    Payout,
    Refund,
}

/// Whether a money movement has settled, stored as a lower-case label.
#[derive(Clone, Debug, PartialEq, Eq, Structural)]
pub enum TransactionStatus {
    Completed,
    Pending,
    Failed,
}

impl TransactionType {
    /// The label under which this type is persisted.
    pub open spec fn label(self) -> Seq<char> {
        match self {
            TransactionType::Contribution => "contribution"@,
            TransactionType::Payout => "payout"@,
            TransactionType::Refund => "refund"@,
        }
    }

    /// The type a stored label denotes, if any.
    pub open spec fn spec_parse(s: Seq<char>) -> Option<TransactionType> {
        if s == "contribution"@ {
            Some(TransactionType::Contribution)
        } else if s == "payout"@ {
            Some(TransactionType::Payout)
        } else if s == "refund"@ {
            Some(TransactionType::Refund)
        } else {
            None
        }
    }

    pub fn to_label(&self) -> (r: String)
        ensures
            r@ == self.label(),
    {
        match self {
            TransactionType::Contribution => "contribution".to_owned(),
            TransactionType::Payout => "payout".to_owned(),
            TransactionType::Refund => "refund".to_owned(),
        }
    }

    pub fn parse(value: &str) -> (r: Result<TransactionType, String>)
        ensures
            match TransactionType::spec_parse(value@) {
                Some(m) => r matches Ok(p) && p == m,
                None => r is Err,
            },
    {
        let v: String = value.to_owned();
        let contribution: String = "contribution".to_owned();
        let payout: String = "payout".to_owned();
        let refund: String = "refund".to_owned();
        if v == contribution {
            Ok(TransactionType::Contribution)
        } else if v == payout {
            Ok(TransactionType::Payout)
        } else if v == refund {
            Ok(TransactionType::Refund)
        } else {
            Err("Unknown transaction type".to_owned())
        }
    }
}

impl TransactionStatus {
    /// The label under which this status is persisted.
    pub open spec fn label(self) -> Seq<char> {
        match self {
            TransactionStatus::Completed => "completed"@,
            TransactionStatus::Pending => "pending"@,
            TransactionStatus::Failed => "failed"@,
        }
    }

    /// The status a stored label denotes, if any.
    pub open spec fn spec_parse(s: Seq<char>) -> Option<TransactionStatus> {
        if s == "completed"@ {
            Some(TransactionStatus::Completed)
        } else if s == "pending"@ {
            Some(TransactionStatus::Pending)
        } else if s == "failed"@ {
            Some(TransactionStatus::Failed)
        } else {
            None
        }
    }

    pub fn to_label(&self) -> (r: String)
        ensures
            r@ == self.label(),
    {
        match self {
            TransactionStatus::Completed => "completed".to_owned(),
            TransactionStatus::Pending => "pending".to_owned(),
            TransactionStatus::Failed => "failed".to_owned(),
        }
    }

    pub fn parse(value: &str) -> (r: Result<TransactionStatus, String>)
        ensures
            match TransactionStatus::spec_parse(value@) {
                Some(m) => r matches Ok(p) && p == m,
                None => r is Err,
            },
    {
        let v: String = value.to_owned();
        let completed: String = "completed".to_owned();
        let pending: String = "pending".to_owned();
        let failed: String = "failed".to_owned();
        if v == completed {
            Ok(TransactionStatus::Completed)
        } else if v == pending {
            Ok(TransactionStatus::Pending)
        } else if v == failed {
            Ok(TransactionStatus::Failed)
        } else {
            Err("Unknown transaction status".to_owned())
        }
    }
}

} // verus!

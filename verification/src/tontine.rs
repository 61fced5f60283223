use vstd::prelude::*;

verus! {

/// How often a tontine collects contributions, stored as a lower-case label.
#[derive(Clone, Debug, PartialEq, Eq, Structural)]
pub enum TontineFrequency {
    Daily,
    Weekly,
    Monthly,
}

/// The lifecycle state of a tontine, stored as a lower-case label.
#[derive(Clone, Debug, PartialEq, Eq, Structural)]
pub enum TontineStatus {
    Active,
    Completed,
    Cancelled,
}

impl TontineFrequency {
    /// The label under which this frequency is persisted.
    pub open spec fn label(self) -> Seq<char> {
        match self {
            TontineFrequency::Daily => "daily"@,
            TontineFrequency::Weekly => "weekly"@,
            TontineFrequency::Monthly => "monthly"@,
        }
    }

    /// The frequency a stored label denotes, if any.
    pub open spec fn spec_parse(s: Seq<char>) -> Option<TontineFrequency> {
        if s == "daily"@ {
            Some(TontineFrequency::Daily)
        } else if s == "weekly"@ {
            Some(TontineFrequency::Weekly)
        } else if s == "monthly"@ {
            Some(TontineFrequency::Monthly)
        } else {
            None
        }
    }

    pub fn to_label(&self) -> (r: String)
        ensures
            r@ == self.label(),
    {
        match self {
            TontineFrequency::Daily => "daily".to_owned(),
            TontineFrequency::Weekly => "weekly".to_owned(),
            TontineFrequency::Monthly => "monthly".to_owned(),
        }
    }

    pub fn parse(value: &str) -> (r: Result<TontineFrequency, String>)
        ensures
            match TontineFrequency::spec_parse(value@) {
                Some(m) => r matches Ok(p) && p == m,
                None => r is Err,
            },
    {
        let v: String = value.to_owned();
        let daily: String = "daily".to_owned();
        let weekly: String = "weekly".to_owned();
        let monthly: String = "monthly".to_owned();
        if v == daily {
            Ok(TontineFrequency::Daily)
        } else if v == weekly {
            Ok(TontineFrequency::Weekly)
        } else if v == monthly {
            Ok(TontineFrequency::Monthly)
        } else {
            Err("Unknown tontine frequency".to_owned())
        }
    }
}

impl TontineStatus {
    /// The label under which this status is persisted.
    pub open spec fn label(self) -> Seq<char> {
        match self {
            TontineStatus::Active => "active"@,
            TontineStatus::Completed => "completed"@,
            TontineStatus::Cancelled => "cancelled"@,
        }
    }

    /// The status a stored label denotes, if any.
    pub open spec fn spec_parse(s: Seq<char>) -> Option<TontineStatus> {
        if s == "active"@ {
            Some(TontineStatus::Active)
        } else if s == "completed"@ {
            Some(TontineStatus::Completed)
        } else if s == "cancelled"@ {
            Some(TontineStatus::Cancelled)
        } else {
            None
        }
    }

    pub fn to_label(&self) -> (r: String)
        ensures
            r@ == self.label(),
    {
        match self {
            TontineStatus::Active => "active".to_owned(),
            TontineStatus::Completed => "completed".to_owned(),
            TontineStatus::Cancelled => "cancelled".to_owned(),
        }
    }

    pub fn parse(value: &str) -> (r: Result<TontineStatus, String>)
        ensures
            match TontineStatus::spec_parse(value@) {
                Some(m) => r matches Ok(p) && p == m,
                None => r is Err,
            },
    {
        let v: String = value.to_owned();
        let active: String = "active".to_owned();
        let completed: String = "completed".to_owned();
        let cancelled: String = "cancelled".to_owned();
        if v == active {
            Ok(TontineStatus::Active)
        } else if v == completed {
            Ok(TontineStatus::Completed)
        } else if v == cancelled {
            Ok(TontineStatus::Cancelled)
        } else {
            Err("Unknown tontine status".to_owned())
        }
    }
}

} // verus!

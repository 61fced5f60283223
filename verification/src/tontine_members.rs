use vstd::prelude::*;

use crate::errors::AppError;

verus! {

/// A partial update of a tontine membership: only the fields that are
/// present are changed.
#[derive(Clone, Debug)]
pub struct UpdateTontineMember {
    pub is_active: Option<bool>,
    pub position_order: Option<i32>,
}

/// Whether a new membership is admissible: the tontine and the user must
/// exist, the user may not already be a member, and the tontine may not
/// have reached its member cap.
pub open spec fn member_admissible(
    tontine_exists: bool,
    user_exists: bool,
    already_member: bool,
    active_member_count: i64,
    max_members: i64,
) -> bool {
    tontine_exists && user_exists && !already_member && active_member_count < max_members
}

/// The payout position a new member takes: the requested one, or the next
/// position after the highest taken so far, or the first.
pub open spec fn assigned_position(
    requested_position: Option<i32>,
    highest_position: Option<i32>,
) -> int {
    match requested_position {
        Some(q) => q as int,
        None => match highest_position {
            Some(h) => h as int + 1,
            None => 1,
        },
    }
}

/// The decision half of adding a member, given what the store answered
/// about the tontine, the user, and the current membership: a membership is
/// created exactly when it is admissible, and then takes its assigned
/// payout position.
pub fn admit_member(
    tontine_exists: bool,
    user_exists: bool,
    already_member: bool,
    active_member_count: i64,
    max_members: i64,
    requested_position: Option<i32>,
    highest_position: Option<i32>,
) -> (r: Result<i32, AppError>)
    requires
        requested_position is None ==> (highest_position matches Some(h) ==> h < i32::MAX),
    ensures
        r is Ok <==> member_admissible(
            tontine_exists,
            user_exists,
            already_member,
            active_member_count,
            max_members,
        ),
        r matches Ok(p) ==> p as int == assigned_position(requested_position, highest_position),
        r matches Err(e) ==> e matches AppError::ValidationError(_),
{
    if !tontine_exists {
        return Err(AppError::ValidationError("The specified tontine does not exist".to_owned()));
    }
    if !user_exists {
        return Err(AppError::ValidationError("The specified user does not exist".to_owned()));
    }
    if already_member {
        return Err(
            AppError::ValidationError("The user is already a member of this tontine".to_owned()),
        );
    }
    if active_member_count >= max_members {
        return Err(
            AppError::ValidationError(
                "The tontine has reached its maximum number of members".to_owned(),
            ),
        );
    }
    let position: i32 = match requested_position {
        Some(q) => q,
        None => match highest_position {
            Some(h) => h + 1,
            None => 1,
        },
    };
    Ok(position)
}

} // verus!

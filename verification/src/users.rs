//! User and group identity queries, as this platform answers them.
//!
//! The platform has no Unix-style numeric user or group identities, and no
//! enumerable account database at this layer: the identifier queries fail as
//! unsupported, and the enumeration queries succeed with nothing.

use vstd::prelude::*;
use crate::error::Error;

verus! {

/// The current user's numeric id; not a concept on this platform.
pub fn get_current_uid() -> (r: Result<u32, Error>)
    ensures
        r matches Err(e) && e.is_not_supported("getting current uid"@),
{
    Err(Error::NotSupportedOnThisPlatform("getting current uid"))
}

/// The current group's numeric id; not a concept on this platform.
pub fn get_current_gid() -> (r: Result<u32, Error>)
    ensures
        r matches Err(e) && e.is_not_supported("getting current gid"@),
{
    Err(Error::NotSupportedOnThisPlatform("getting current gid"))
}

/// The effective user's numeric id; not a concept on this platform.
pub fn get_effective_uid() -> (r: Result<u32, Error>)
    ensures
        r matches Err(e) && e.is_not_supported("getting effective uid"@),
{
    Err(Error::NotSupportedOnThisPlatform("getting effective uid"))
}

/// The effective group's numeric id; not a concept on this platform.
pub fn get_effective_gid() -> (r: Result<u32, Error>)
    ensures
        r matches Err(e) && e.is_not_supported("getting effective gid"@),
{
    Err(Error::NotSupportedOnThisPlatform("getting effective gid"))
}

/// The numeric group ids of the current user; none are known here.
pub fn get_user_group_ids() -> (r: Result<Vec<u32>, Error>)
    ensures
        r matches Ok(v) && v@ == Seq::<u32>::empty(),
{
    Ok(Vec::new())
}

/// The names of all user accounts; none are enumerable here.
pub fn get_all_users() -> (r: Result<Vec<String>, Error>)
    ensures
        r matches Ok(v) && v@ == Seq::<String>::empty(),
{
    Ok(Vec::new())
}

/// The names of all groups; none are enumerable here.
pub fn get_all_groups() -> (r: Result<Vec<String>, Error>)
    ensures
        r matches Ok(v) && v@ == Seq::<String>::empty(),
{
    Ok(Vec::new())
}

} // verus!

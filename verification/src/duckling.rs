//! The read-modify-write merge for partial configuration updates: each of
//! the three fields takes the caller's override when given, else the value
//! from the fetched current configuration; a field that neither covers stops
//! the update, so a write never carries a silently defaulted field.
use vstd::prelude::*;

use crate::errors::{CliError, ConfigField};
use crate::jsonv::{field_of, str_field_of, uint_field_of, Jv};
use crate::InstanceSize;
use vstd::string::*;

verus! {

/// A fully populated configuration, ready to be written.
#[derive(Debug, PartialEq, Eq)]
pub struct MergedDucklingConfig {
    pub rw_size: String,
    pub rs_size: String,
    pub flock_size: u32,
}

/// The read-write instance size the fetched configuration holds, if any.
pub open spec fn current_rw_size(cur: Jv) -> Option<Seq<char>> {
    match field_of(cur, "read_write"@) {
        Some(v) => str_field_of(v, "instance_size"@),
        None => None,
    }
}

/// The read-scaling instance size the fetched configuration holds, if any.
pub open spec fn current_rs_size(cur: Jv) -> Option<Seq<char>> {
    match field_of(cur, "read_scaling"@) {
        Some(v) => str_field_of(v, "instance_size"@),
        None => None,
    }
}

/// The flock size the fetched configuration holds, if any.
pub open spec fn current_flock(cur: Jv) -> Option<u64> {
    match field_of(cur, "read_scaling"@) {
        Some(v) => uint_field_of(v, "flock_size"@),
        None => None,
    }
}

/// What the merge produces: override first, fetched value second, and the
/// first field covered by neither names the error. A fetched flock size
/// beyond `u32` does not count as present.
pub open spec fn merge_spec(
    cur: Jv,
    rw: Option<InstanceSize>,
    rs: Option<InstanceSize>,
    fl: Option<u32>,
) -> Result<(Seq<char>, Seq<char>, u32), CliError> {
    let rwv = match rw {
        Some(s) => Some(s.spec_api_str()),
        None => current_rw_size(cur),
    };
    let rsv = match rs {
        Some(s) => Some(s.spec_api_str()),
        None => current_rs_size(cur),
    };
    let flv = match fl {
        Some(n) => Some(n as u64),
        None => current_flock(cur),
    };
    if rwv is None {
        Err(CliError::IncompleteConfig(ConfigField::RwSize))
    } else if rsv is None {
        Err(CliError::IncompleteConfig(ConfigField::RsSize))
    } else if flv is None || flv->0 > u32::MAX as u64 {
        Err(CliError::IncompleteConfig(ConfigField::FlockSize))
    } else {
        Ok((rwv->0, rsv->0, flv->0 as u32))
    }
}

/// At least one override must be supplied before any network call; a no-op
/// update is rejected.
pub fn check_overrides(
    rw_size: Option<InstanceSize>,
    rs_size: Option<InstanceSize>,
    flock_size: Option<u32>,
) -> (r: Result<(), CliError>)
    ensures
        r is Ok <==> (rw_size is Some || rs_size is Some || flock_size is Some),
        r is Err ==> r == Err::<(), CliError>(CliError::NoOverrides),
{
    if rw_size.is_none() && rs_size.is_none() && flock_size.is_none() {
        Err(CliError::NoOverrides)
    } else {
        Ok(())
    }
}

/// Merge the caller's overrides over the fetched current configuration.
pub fn merge_duckling_config(
    current: &Jv,
    rw_size: Option<InstanceSize>,
    rs_size: Option<InstanceSize>,
    flock_size: Option<u32>,
) -> (r: Result<MergedDucklingConfig, CliError>)
    ensures
        match r {
            Ok(m) => merge_spec(*current, rw_size, rs_size, flock_size) == Ok::<
                (Seq<char>, Seq<char>, u32),
                CliError,
            >((m.rw_size@, m.rs_size@, m.flock_size)),
            Err(e) => merge_spec(*current, rw_size, rs_size, flock_size) == Err::<
                (Seq<char>, Seq<char>, u32),
                CliError,
            >(e),
        },
{
    let rw: String = match rw_size {
        Some(s) => s.as_api_str().to_owned(),
        None => match current.get_field("read_write") {
            Some(v) => match v.str_field("instance_size") {
                Some(s) => s.to_owned(),
                None => {
                    return Err(CliError::IncompleteConfig(ConfigField::RwSize));
                },
            },
            None => {
                return Err(CliError::IncompleteConfig(ConfigField::RwSize));
            },
        },
    };
    let rs: String = match rs_size {
        Some(s) => s.as_api_str().to_owned(),
        None => match current.get_field("read_scaling") {
            Some(v) => match v.str_field("instance_size") {
                Some(s) => s.to_owned(),
                None => {
                    return Err(CliError::IncompleteConfig(ConfigField::RsSize));
                },
            },
            None => {
                return Err(CliError::IncompleteConfig(ConfigField::RsSize));
            },
        },
    };
    let fl: u32 = match flock_size {
        Some(n) => n,
        None => match current.get_field("read_scaling") {
            Some(v) => match v.get_field("flock_size") {
                Some(f) => match f.as_uint() {
                    Some(n) => {
                        if n <= u32::MAX as u64 {
                            n as u32
                        } else {
                            return Err(CliError::IncompleteConfig(ConfigField::FlockSize));
                        }
                    },
                    None => {
                        return Err(CliError::IncompleteConfig(ConfigField::FlockSize));
                    },
                },
                None => {
                    return Err(CliError::IncompleteConfig(ConfigField::FlockSize));
                },
            },
            None => {
                return Err(CliError::IncompleteConfig(ConfigField::FlockSize));
            },
        },
    };
    Ok(MergedDucklingConfig { rw_size: rw, rs_size: rs, flock_size: fl })
}

} // verus!

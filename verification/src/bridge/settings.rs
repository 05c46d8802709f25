//! The profile as a whole: its start, its key, its server and the settings of a frontend.
use vstd::prelude::*;
use crate::bridge::conversions;
use crate::bridge::dto::FrontendSettingKeyDto;
use crate::bridge::error;
use crate::bridge::error::{BridgeErrorCodeDto, BridgeErrorDto};
use crate::error::ClientFailure;
use crate::model::FrontendSettingKey;

verus! {

/// The name of the time zone that the machine is in.
pub fn get_local_time_zone<F: FnOnce() -> Result<String, ClientFailure>>(
    client: Result<F, ClientFailure>,
) -> (r: Result<String, BridgeErrorDto>)
    requires
        client matches Ok(run) ==> run.requires(()),
    ensures
        match client {
            Err(failure) => error::not_reached(failure, r),
            Ok(run) => exists|reply: Result<String, ClientFailure>| #[trigger]
                run.ensures((), reply) && error::handed_on(reply, r),
        },
{
    let run = match client {
        Ok(run) => run,
        Err(failure) => {
            return Err(BridgeErrorDto::from(failure));
        },
    };
    let reply = run();
    proof {
        assert(run.ensures((), reply));
    }
    conversions::client_result(reply)
}

/// Starts the core on the profile in a directory. `start` opens the profile, and makes
/// its key and its inbox where there are none.
pub fn init_core<F: FnOnce(String, String) -> Result<(), ClientFailure>>(
    start: F,
    db_dir: String,
    default_inbox_name: String,
) -> (r: Result<(), BridgeErrorDto>)
    requires
        start.requires((db_dir, default_inbox_name)),
    ensures
        exists|reply: Result<(), ClientFailure>| #[trigger]
            start.ensures((db_dir, default_inbox_name), reply) && error::handed_on(reply, r),
{
    let reply = start(db_dir, default_inbox_name);
    proof {
        assert(start.ensures((db_dir, default_inbox_name), reply));
    }
    conversions::client_result(reply)
}

/// What a rotation of the device key tells: the new generation, where a frontend can
/// hold it. A generation beyond that means that the local keys are in no usable state.
pub open spec fn rotation_told(
    reply: Result<u64, ClientFailure>,
    r: Result<i64, BridgeErrorDto>,
) -> bool {
    match reply {
        Ok(generation) => if generation <= i64::MAX {
            r == Ok::<i64, BridgeErrorDto>(generation as i64)
        } else {
            r is Err && r->Err_0.is(BridgeErrorCodeDto::CryptoUnavailable, false)
        },
        Err(failure) => r is Err && r->Err_0.tells(failure),
    }
}

/// Gives the profile a new device key. No key material crosses the bridge.
pub fn rotate_device_key<F: FnOnce() -> Result<u64, ClientFailure>>(
    client: Result<F, ClientFailure>,
) -> (r: Result<i64, BridgeErrorDto>)
    requires
        client matches Ok(run) ==> run.requires(()),
    ensures
        match client {
            Err(failure) => error::not_reached(failure, r),
            Ok(run) => exists|reply: Result<u64, ClientFailure>| #[trigger]
                run.ensures((), reply) && rotation_told(reply, r),
        },
{
    let run = match client {
        Ok(run) => run,
        Err(failure) => {
            return Err(BridgeErrorDto::from(failure));
        },
    };
    let reply = run();
    proof {
        assert(run.ensures((), reply));
    }
    match reply {
        Ok(generation) => if generation <= 9_223_372_036_854_775_807 {
            Ok(generation as i64)
        } else {
            Err(BridgeErrorDto::new(BridgeErrorCodeDto::CryptoUnavailable, false))
        },
        Err(failure) => Err(BridgeErrorDto::from(failure)),
    }
}

/// The origin of the sync server.
pub fn get_sync_server_url<F: FnOnce() -> Result<String, ClientFailure>>(
    client: Result<F, ClientFailure>,
) -> (r: Result<String, BridgeErrorDto>)
    requires
        client matches Ok(run) ==> run.requires(()),
    ensures
        match client {
            Err(failure) => error::not_reached(failure, r),
            Ok(run) => exists|reply: Result<String, ClientFailure>| #[trigger]
                run.ensures((), reply) && error::handed_on(reply, r),
        },
{
    let run = match client {
        Ok(run) => run,
        Err(failure) => {
            return Err(BridgeErrorDto::from(failure));
        },
    };
    let reply = run();
    proof {
        assert(run.ensures((), reply));
    }
    conversions::client_result(reply)
}

/// Chooses the sync server.
pub fn set_sync_server_url<F: FnOnce(String) -> Result<(), ClientFailure>>(
    client: Result<F, ClientFailure>,
    server_url: String,
) -> (r: Result<(), BridgeErrorDto>)
    requires
        client matches Ok(run) ==> run.requires((server_url,)),
    ensures
        match client {
            Err(failure) => error::not_reached(failure, r),
            Ok(run) => exists|reply: Result<(), ClientFailure>| #[trigger]
                run.ensures((server_url,), reply) && error::handed_on(reply, r),
        },
{
    let run = match client {
        Ok(run) => run,
        Err(failure) => {
            return Err(BridgeErrorDto::from(failure));
        },
    };
    let reply = run(server_url);
    proof {
        assert(run.ensures((server_url,), reply));
    }
    conversions::client_result(reply)
}

/// What a frontend stored under a setting.
pub fn get_frontend_setting<
    F: FnOnce(FrontendSettingKey) -> Result<Option<String>, ClientFailure>,
>(
    client: Result<F, ClientFailure>,
    key: FrontendSettingKeyDto,
) -> (r: Result<Option<String>, BridgeErrorDto>)
    requires
        client matches Ok(run) ==> run.requires((conversions::meant_setting(key),)),
    ensures
        match client {
            Err(failure) => error::not_reached(failure, r),
            Ok(run) => exists|reply: Result<Option<String>, ClientFailure>| #[trigger]
                run.ensures((conversions::meant_setting(key),), reply)
                    && error::handed_on(reply, r),
        },
{
    let run = match client {
        Ok(run) => run,
        Err(failure) => {
            return Err(BridgeErrorDto::from(failure));
        },
    };
    let meant = FrontendSettingKey::from(key);
    let reply = run(meant);
    proof {
        assert(run.ensures((conversions::meant_setting(key),), reply));
    }
    conversions::client_result(reply)
}

/// Stores a setting of a frontend.
pub fn set_frontend_setting<F: FnOnce(FrontendSettingKey, String) -> Result<(), ClientFailure>>(
    client: Result<F, ClientFailure>,
    key: FrontendSettingKeyDto,
    value: String,
) -> (r: Result<(), BridgeErrorDto>)
    requires
        client matches Ok(run) ==> run.requires((conversions::meant_setting(key), value)),
    ensures
        match client {
            Err(failure) => error::not_reached(failure, r),
            Ok(run) => exists|reply: Result<(), ClientFailure>| #[trigger]
                run.ensures((conversions::meant_setting(key), value), reply)
                    && error::handed_on(reply, r),
        },
{
    let run = match client {
        Ok(run) => run,
        Err(failure) => {
            return Err(BridgeErrorDto::from(failure));
        },
    };
    let meant = FrontendSettingKey::from(key);
    let reply = run(meant, value);
    proof {
        assert(run.ensures((conversions::meant_setting(key), value), reply));
    }
    conversions::client_result(reply)
}

} // verus!

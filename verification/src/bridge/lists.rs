//! Lists.
use vstd::prelude::*;
use crate::bridge::conversions;
use crate::bridge::error;
use crate::bridge::error::BridgeErrorDto;
use crate::bridge::dto::ListDto;
use crate::domain::List;
use crate::error::ClientFailure;
use crate::ids;
use crate::ids::Uuid;

verus! {

/// Makes a list. Where it stands among the others is up to the client: a rank that a
/// frontend names is not used.
pub fn create_list<F: FnOnce(String) -> Result<List, ClientFailure>>(
    client: Result<F, ClientFailure>,
    name: String,
    sort_order: String,
) -> (r: Result<ListDto, BridgeErrorDto>)
    requires
        client matches Ok(run) ==> run.requires((name,)),
    ensures
        match client {
            Err(failure) => error::not_reached(failure, r),
            Ok(run) => exists|reply: Result<List, ClientFailure>| #[trigger]
                run.ensures((name,), reply) && error::answered(
                    reply,
                    r,
                    |list: List, dto: ListDto| dto.shows(list),
                ),
        },
{
    let run = match client {
        Ok(run) => run,
        Err(failure) => {
            return Err(BridgeErrorDto::from(failure));
        },
    };
    let reply = run(name);
    proof {
        assert(run.ensures((name,), reply));
    }
    match reply {
        Ok(value) => Ok(conversions::list_to_dto(value)),
        Err(failure) => Err(BridgeErrorDto::from(failure)),
    }
}

/// The lists that are not archived.
pub fn get_lists<F: FnOnce() -> Result<Vec<List>, ClientFailure>>(
    client: Result<F, ClientFailure>,
) -> (r: Result<Vec<ListDto>, BridgeErrorDto>)
    requires
        client matches Ok(run) ==> run.requires(()),
    ensures
        match client {
            Err(failure) => error::not_reached(failure, r),
            Ok(run) => exists|reply: Result<Vec<List>, ClientFailure>| #[trigger]
                run.ensures((), reply) && error::answered(
                    reply,
                    r,
                    |lists: Vec<List>, dtos: Vec<ListDto>| conversions::shows_lists(dtos@, lists@),
                ),
        },
{
    let run = match client {
        Ok(run) => run,
        Err(failure) => {
            return Err(BridgeErrorDto::from(failure));
        },
    };
    let reply = run();
    proof {
        assert(run.ensures((), reply));
    }
    match reply {
        Ok(value) => Ok(conversions::lists_to_dtos(value)),
        Err(failure) => Err(BridgeErrorDto::from(failure)),
    }
}

/// The archived lists.
pub fn get_archived_lists<F: FnOnce() -> Result<Vec<List>, ClientFailure>>(
    client: Result<F, ClientFailure>,
) -> (r: Result<Vec<ListDto>, BridgeErrorDto>)
    requires
        client matches Ok(run) ==> run.requires(()),
    ensures
        match client {
            Err(failure) => error::not_reached(failure, r),
            Ok(run) => exists|reply: Result<Vec<List>, ClientFailure>| #[trigger]
                run.ensures((), reply) && error::answered(
                    reply,
                    r,
                    |lists: Vec<List>, dtos: Vec<ListDto>| conversions::shows_lists(dtos@, lists@),
                ),
        },
{
    let run = match client {
        Ok(run) => run,
        Err(failure) => {
            return Err(BridgeErrorDto::from(failure));
        },
    };
    let reply = run();
    proof {
        assert(run.ensures((), reply));
    }
    match reply {
        Ok(value) => Ok(conversions::lists_to_dtos(value)),
        Err(failure) => Err(BridgeErrorDto::from(failure)),
    }
}

/// Renames a list.
pub fn rename_list<F: FnOnce(Uuid, String) -> Result<List, ClientFailure>>(
    client: Result<F, ClientFailure>,
    list_id: String,
    name: String,
) -> (r: Result<ListDto, BridgeErrorDto>)
    requires
        client matches Ok(run) ==> (ids::parsed(list_id@) matches Some(id) ==> run.requires(
            (id, name),
        )),
    ensures
        match ids::parsed(list_id@) {
            Some(id) => match client {
                Err(failure) => error::not_reached(failure, r),
                Ok(run) => exists|reply: Result<List, ClientFailure>| #[trigger]
                    run.ensures((id, name), reply) && error::answered(
                        reply,
                        r,
                        |list: List, dto: ListDto| dto.shows(list),
                    ),
            },
            None => error::refused(r),
        },
{
    let id = match conversions::parse_uuid(list_id.as_str()) {
        Ok(id) => id,
        Err(refusal) => {
            return Err(refusal);
        },
    };
    let run = match client {
        Ok(run) => run,
        Err(failure) => {
            return Err(BridgeErrorDto::from(failure));
        },
    };
    let reply = run(id, name);
    proof {
        assert(run.ensures((id, name), reply));
    }
    match reply {
        Ok(value) => Ok(conversions::list_to_dto(value)),
        Err(failure) => Err(BridgeErrorDto::from(failure)),
    }
}

/// Archives a list.
pub fn archive_list<F: FnOnce(Uuid) -> Result<List, ClientFailure>>(
    client: Result<F, ClientFailure>,
    list_id: String,
) -> (r: Result<ListDto, BridgeErrorDto>)
    requires
        client matches Ok(run) ==> (ids::parsed(list_id@) matches Some(id) ==> run.requires((id,))),
    ensures
        match ids::parsed(list_id@) {
            Some(id) => match client {
                Err(failure) => error::not_reached(failure, r),
                Ok(run) => exists|reply: Result<List, ClientFailure>| #[trigger]
                    run.ensures((id,), reply) && error::answered(
                        reply,
                        r,
                        |list: List, dto: ListDto| dto.shows(list),
                    ),
            },
            None => error::refused(r),
        },
{
    let id = match conversions::parse_uuid(list_id.as_str()) {
        Ok(id) => id,
        Err(refusal) => {
            return Err(refusal);
        },
    };
    let run = match client {
        Ok(run) => run,
        Err(failure) => {
            return Err(BridgeErrorDto::from(failure));
        },
    };
    let reply = run(id);
    proof {
        assert(run.ensures((id,), reply));
    }
    match reply {
        Ok(value) => Ok(conversions::list_to_dto(value)),
        Err(failure) => Err(BridgeErrorDto::from(failure)),
    }
}

/// Takes a list back out of the archive.
pub fn unarchive_list<F: FnOnce(Uuid) -> Result<List, ClientFailure>>(
    client: Result<F, ClientFailure>,
    list_id: String,
) -> (r: Result<ListDto, BridgeErrorDto>)
    requires
        client matches Ok(run) ==> (ids::parsed(list_id@) matches Some(id) ==> run.requires((id,))),
    ensures
        match ids::parsed(list_id@) {
            Some(id) => match client {
                Err(failure) => error::not_reached(failure, r),
                Ok(run) => exists|reply: Result<List, ClientFailure>| #[trigger]
                    run.ensures((id,), reply) && error::answered(
                        reply,
                        r,
                        |list: List, dto: ListDto| dto.shows(list),
                    ),
            },
            None => error::refused(r),
        },
{
    let id = match conversions::parse_uuid(list_id.as_str()) {
        Ok(id) => id,
        Err(refusal) => {
            return Err(refusal);
        },
    };
    let run = match client {
        Ok(run) => run,
        Err(failure) => {
            return Err(BridgeErrorDto::from(failure));
        },
    };
    let reply = run(id);
    proof {
        assert(run.ensures((id,), reply));
    }
    match reply {
        Ok(value) => Ok(conversions::list_to_dto(value)),
        Err(failure) => Err(BridgeErrorDto::from(failure)),
    }
}

/// Deletes a list.
pub fn delete_list<F: FnOnce(Uuid) -> Result<(), ClientFailure>>(
    client: Result<F, ClientFailure>,
    list_id: String,
) -> (r: Result<(), BridgeErrorDto>)
    requires
        client matches Ok(run) ==> (ids::parsed(list_id@) matches Some(id) ==> run.requires((id,))),
    ensures
        match ids::parsed(list_id@) {
            Some(id) => match client {
                Err(failure) => error::not_reached(failure, r),
                Ok(run) => exists|reply: Result<(), ClientFailure>| #[trigger]
                    run.ensures((id,), reply) && error::handed_on(reply, r),
            },
            None => error::refused(r),
        },
{
    let id = match conversions::parse_uuid(list_id.as_str()) {
        Ok(id) => id,
        Err(refusal) => {
            return Err(refusal);
        },
    };
    let run = match client {
        Ok(run) => run,
        Err(failure) => {
            return Err(BridgeErrorDto::from(failure));
        },
    };
    let reply = run(id);
    proof {
        assert(run.ensures((id,), reply));
    }
    conversions::client_result(reply)
}

} // verus!

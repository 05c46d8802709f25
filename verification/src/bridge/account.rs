//! Account, billing, synchronization and organizations.
use vstd::prelude::*;
use crate::bridge::conversions;
use crate::bridge::dto::{
    AccountAuthResultDto, AccountRegistrationPendingDto, AccountRegistrationStateDto,
    AccountSessionStateDto, BillingStateDto, OrganizationSafetyStateDto, RealtimeTicketDto,
    SyncNowOutcomeDto, SyncStatusDto,
};
use crate::bridge::error;
use crate::bridge::error::BridgeErrorDto;
use crate::domain::{AccountRegistrationPending, AccountRegistrationState};
use crate::error::{ClientError, ClientFailure};
use crate::model::{
    AccountAuthResult, AccountSessionState, BillingState, OrganizationSafetyState, RealtimeTicket,
    SyncStatus,
};

verus! {

/// Who is logged in.
pub fn get_account_session_state<F: FnOnce() -> Result<AccountSessionState, ClientFailure>>(
    client: Result<F, ClientFailure>,
) -> (r: Result<AccountSessionStateDto, BridgeErrorDto>)
    requires
        client matches Ok(run) ==> run.requires(()),
    ensures
        match client {
            Err(failure) => error::not_reached(failure, r),
            Ok(run) => exists|reply: Result<AccountSessionState, ClientFailure>| #[trigger]
                run.ensures((), reply) && error::answered(
                    reply,
                    r,
                    |session: AccountSessionState, dto: AccountSessionStateDto| dto.shows(session),
                ),
        },
{
    let run = match client {
        Ok(run) => run,
        Err(failure) => {
            return Err(BridgeErrorDto::from(failure));
        },
    };
    let reply = run();
    proof {
        assert(run.ensures((), reply));
    }
    match reply {
        Ok(value) => Ok(conversions::account_session_to_dto(value)),
        Err(failure) => Err(BridgeErrorDto::from(failure)),
    }
}

/// The registration that is under way, where there is one.
pub fn account_registration_state<
    F: FnOnce() -> Result<Option<AccountRegistrationState>, ClientFailure>,
>(
    client: Result<F, ClientFailure>,
) -> (r: Result<Option<AccountRegistrationStateDto>, BridgeErrorDto>)
    requires
        client matches Ok(run) ==> run.requires(()),
    ensures
        match client {
            Err(failure) => error::not_reached(failure, r),
            Ok(run) => exists|
                reply: Result<Option<AccountRegistrationState>, ClientFailure>,
            | #[trigger]
                run.ensures((), reply) && error::answered(
                    reply,
                    r,
                    |
                        state: Option<AccountRegistrationState>,
                        dto: Option<AccountRegistrationStateDto>,
                    |
                        conversions::shows_optional(
                            state,
                            dto,
                            |value: AccountRegistrationState, shown: AccountRegistrationStateDto|
                                shown.shows(value),
                        ),
                ),
        },
{
    let run = match client {
        Ok(run) => run,
        Err(failure) => {
            return Err(BridgeErrorDto::from(failure));
        },
    };
    let reply = run();
    proof {
        assert(run.ensures((), reply));
    }
    match reply {
        Ok(value) => Ok(match value {
            None => None,
            Some(inner) => Some(conversions::account_registration_state_to_dto(inner)),
        }),
        Err(failure) => Err(BridgeErrorDto::from(failure)),
    }
}

/// Gives up the registration that is under way.
pub fn account_registration_cancel<F: FnOnce() -> Result<(), ClientFailure>>(
    client: Result<F, ClientFailure>,
) -> (r: Result<(), BridgeErrorDto>)
    requires
        client matches Ok(run) ==> run.requires(()),
    ensures
        match client {
            Err(failure) => error::not_reached(failure, r),
            Ok(run) => exists|reply: Result<(), ClientFailure>| #[trigger]
                run.ensures((), reply) && error::handed_on(reply, r),
        },
{
    let run = match client {
        Ok(run) => run,
        Err(failure) => {
            return Err(BridgeErrorDto::from(failure));
        },
    };
    let reply = run();
    proof {
        assert(run.ensures((), reply));
    }
    conversions::client_result(reply)
}

/// What is to be done before a registration is asked for: a server that is named is
/// chosen, and only then is the request made, for the address that is handed back.
pub fn account_registration_begin<F: FnOnce(String) -> Result<(), ClientFailure>>(
    client: Result<F, ClientFailure>,
    email: String,
    server_url: Option<String>,
) -> (r: Result<String, BridgeErrorDto>)
    requires
        client matches Ok(choose_server) ==> server_url matches Some(url)
            ==> choose_server.requires((url,)),
    ensures
        match client {
            Err(failure) => error::not_reached(failure, r),
            Ok(choose_server) => match server_url {
                None => r == Ok::<String, BridgeErrorDto>(email),
                Some(url) => exists|chosen: Result<(), ClientFailure>| #[trigger]
                    choose_server.ensures((url,), chosen) && match chosen {
                        Ok(_) => r == Ok::<String, BridgeErrorDto>(email),
                        Err(failure) => error::not_reached(failure, r),
                    },
            },
        },
{
    let choose_server = match client {
        Ok(choose_server) => choose_server,
        Err(failure) => {
            return Err(BridgeErrorDto::from(failure));
        },
    };
    match server_url {
        None => Ok(email),
        Some(url) => {
            let chosen = choose_server(url);
            proof {
                assert(choose_server.ensures((url,), chosen));
            }
            match chosen {
                Ok(()) => Ok(email),
                Err(failure) => Err(BridgeErrorDto::from(failure)),
            }
        },
    }
}

/// The answer to a request to register.
pub fn account_registration_begun(
    reply: Result<AccountRegistrationPending, ClientFailure>,
) -> (r: Result<AccountRegistrationPendingDto, BridgeErrorDto>)
    ensures
        error::answered(
            reply,
            r,
            |pending: AccountRegistrationPending, dto: AccountRegistrationPendingDto|
                dto.shows(pending),
        ),
{
    match reply {
        Ok(value) => Ok(conversions::account_registration_pending_to_dto(value)),
        Err(failure) => Err(BridgeErrorDto::from(failure)),
    }
}

/// The answer to a request to send the code again.
pub fn account_registration_resend(
    reply: Result<AccountRegistrationPending, ClientFailure>,
) -> (r: Result<AccountRegistrationPendingDto, BridgeErrorDto>)
    ensures
        error::answered(
            reply,
            r,
            |pending: AccountRegistrationPending, dto: AccountRegistrationPendingDto|
                dto.shows(pending),
        ),
{
    match reply {
        Ok(value) => Ok(conversions::account_registration_pending_to_dto(value)),
        Err(failure) => Err(BridgeErrorDto::from(failure)),
    }
}

/// The answer to the code that the user typed.
pub fn account_registration_verify_otp(
    reply: Result<(), ClientFailure>,
) -> (r: Result<(), BridgeErrorDto>)
    ensures
        error::handed_on(reply, r),
{
    conversions::client_result(reply)
}

/// The answer to a password, with which the registration ends.
pub fn account_registration_complete(
    reply: Result<AccountAuthResult, ClientFailure>,
) -> (r: Result<AccountAuthResultDto, BridgeErrorDto>)
    ensures
        error::answered(
            reply,
            r,
            |result: AccountAuthResult, dto: AccountAuthResultDto| dto.shows(result),
        ),
{
    match reply {
        Ok(value) => Ok(conversions::account_auth_to_dto(value)),
        Err(failure) => Err(BridgeErrorDto::from(failure)),
    }
}

/// Notes that the user has kept the recovery key.
pub fn account_registration_ack_recovery_key<F: FnOnce() -> Result<(), ClientFailure>>(
    client: Result<F, ClientFailure>,
) -> (r: Result<(), BridgeErrorDto>)
    requires
        client matches Ok(run) ==> run.requires(()),
    ensures
        match client {
            Err(failure) => error::not_reached(failure, r),
            Ok(run) => exists|reply: Result<(), ClientFailure>| #[trigger]
                run.ensures((), reply) && error::handed_on(reply, r),
        },
{
    let run = match client {
        Ok(run) => run,
        Err(failure) => {
            return Err(BridgeErrorDto::from(failure));
        },
    };
    let reply = run();
    proof {
        assert(run.ensures((), reply));
    }
    conversions::client_result(reply)
}

/// The recovery key, as long as the user has not kept it.
pub fn account_registration_recovery_key<F: FnOnce() -> Result<Option<String>, ClientFailure>>(
    client: Result<F, ClientFailure>,
) -> (r: Result<Option<String>, BridgeErrorDto>)
    requires
        client matches Ok(run) ==> run.requires(()),
    ensures
        match client {
            Err(failure) => error::not_reached(failure, r),
            Ok(run) => exists|reply: Result<Option<String>, ClientFailure>| #[trigger]
                run.ensures((), reply) && error::handed_on(reply, r),
        },
{
    let run = match client {
        Ok(run) => run,
        Err(failure) => {
            return Err(BridgeErrorDto::from(failure));
        },
    };
    let reply = run();
    proof {
        assert(run.ensures((), reply));
    }
    conversions::client_result(reply)
}

/// The answer to a login.
pub fn account_login(
    reply: Result<AccountAuthResult, ClientFailure>,
) -> (r: Result<AccountAuthResultDto, BridgeErrorDto>)
    ensures
        error::answered(
            reply,
            r,
            |result: AccountAuthResult, dto: AccountAuthResultDto| dto.shows(result),
        ),
{
    match reply {
        Ok(value) => Ok(conversions::account_auth_to_dto(value)),
        Err(failure) => Err(BridgeErrorDto::from(failure)),
    }
}

/// The answer to a logout.
pub fn account_logout(reply: Result<(), ClientFailure>) -> (r: Result<(), BridgeErrorDto>)
    ensures
        error::handed_on(reply, r),
{
    conversions::client_result(reply)
}

/// The safety number of a member.
pub fn organization_safety_number(
    reply: Result<OrganizationSafetyState, ClientFailure>,
) -> (r: Result<OrganizationSafetyStateDto, BridgeErrorDto>)
    ensures
        error::answered(
            reply,
            r,
            |state: OrganizationSafetyState, dto: OrganizationSafetyStateDto| dto.shows(state),
        ),
{
    match reply {
        Ok(value) => Ok(conversions::organization_safety_to_dto(value)),
        Err(failure) => Err(BridgeErrorDto::from(failure)),
    }
}

/// The answer to the confirmation of a safety number.
pub fn confirm_organization_safety_number(
    reply: Result<OrganizationSafetyState, ClientFailure>,
) -> (r: Result<OrganizationSafetyStateDto, BridgeErrorDto>)
    ensures
        error::answered(
            reply,
            r,
            |state: OrganizationSafetyState, dto: OrganizationSafetyStateDto| dto.shows(state),
        ),
{
    match reply {
        Ok(value) => Ok(conversions::organization_safety_to_dto(value)),
        Err(failure) => Err(BridgeErrorDto::from(failure)),
    }
}

/// How synchronization stands.
pub fn get_sync_status<F: FnOnce() -> Result<SyncStatus, ClientFailure>>(
    client: Result<F, ClientFailure>,
) -> (r: Result<SyncStatusDto, BridgeErrorDto>)
    requires
        client matches Ok(run) ==> run.requires(()),
    ensures
        match client {
            Err(failure) => error::not_reached(failure, r),
            Ok(run) => exists|reply: Result<SyncStatus, ClientFailure>| #[trigger]
                run.ensures((), reply) && error::answered(
                    reply,
                    r,
                    |status: SyncStatus, dto: SyncStatusDto| dto.shows(status),
                ),
        },
{
    let run = match client {
        Ok(run) => run,
        Err(failure) => {
            return Err(BridgeErrorDto::from(failure));
        },
    };
    let reply = run();
    proof {
        assert(run.ensures((), reply));
    }
    match reply {
        Ok(value) => Ok(conversions::sync_status_to_dto(value)),
        Err(failure) => Err(BridgeErrorDto::from(failure)),
    }
}

/// The answer to a sync.
pub fn sync_now(
    reply: Result<SyncStatus, ClientFailure>,
) -> (r: Result<SyncStatusDto, BridgeErrorDto>)
    ensures
        error::answered(reply, r, |status: SyncStatus, dto: SyncStatusDto| dto.shows(status)),
{
    match reply {
        Ok(value) => Ok(conversions::sync_status_to_dto(value)),
        Err(failure) => Err(BridgeErrorDto::from(failure)),
    }
}

/// What a sync that the user asked for comes to: that it needs a subscription is an
/// outcome, not an error.
pub open spec fn sync_outcome(
    reply: Result<SyncStatus, ClientFailure>,
    r: Result<SyncNowOutcomeDto, BridgeErrorDto>,
) -> bool {
    match reply {
        Ok(status) => {
            &&& r is Ok
            &&& r->Ok_0 is Synced
            &&& r->Ok_0->status.shows(status)
        },
        Err(failure) => if failure.error == ClientError::EntitlementRequired {
            r == Ok::<SyncNowOutcomeDto, BridgeErrorDto>(SyncNowOutcomeDto::BillingRequired)
        } else {
            r is Err && r->Err_0.tells(failure)
        },
    }
}

/// The outcome of a sync that the user asked for.
pub fn sync_now_outcome(reply: Result<SyncStatus, ClientFailure>) -> (r: Result<
    SyncNowOutcomeDto,
    BridgeErrorDto,
>)
    ensures
        sync_outcome(reply, r),
{
    match reply {
        Ok(status) => Ok(
            SyncNowOutcomeDto::Synced { status: conversions::sync_status_to_dto(status) },
        ),
        Err(failure) => match failure.error {
            ClientError::EntitlementRequired => Ok(SyncNowOutcomeDto::BillingRequired),
            _ => Err(BridgeErrorDto::from(failure)),
        },
    }
}

/// The answer to the first question about billing.
pub fn billing_bootstrap(
    reply: Result<BillingState, ClientFailure>,
) -> (r: Result<BillingStateDto, BridgeErrorDto>)
    ensures
        error::answered(reply, r, |state: BillingState, dto: BillingStateDto| dto.shows(state)),
{
    match reply {
        Ok(value) => Ok(conversions::billing_state_to_dto(value)),
        Err(failure) => Err(BridgeErrorDto::from(failure)),
    }
}

/// The answer to a later question about billing.
pub fn refresh_billing(
    reply: Result<BillingState, ClientFailure>,
) -> (r: Result<BillingStateDto, BridgeErrorDto>)
    ensures
        error::answered(reply, r, |state: BillingState, dto: BillingStateDto| dto.shows(state)),
{
    match reply {
        Ok(value) => Ok(conversions::billing_state_to_dto(value)),
        Err(failure) => Err(BridgeErrorDto::from(failure)),
    }
}

/// What is known of billing without asking, where anything is.
pub fn get_cached_billing<F: FnOnce() -> Result<Option<BillingState>, ClientFailure>>(
    client: Result<F, ClientFailure>,
) -> (r: Result<Option<BillingStateDto>, BridgeErrorDto>)
    requires
        client matches Ok(run) ==> run.requires(()),
    ensures
        match client {
            Err(failure) => error::not_reached(failure, r),
            Ok(run) => exists|reply: Result<Option<BillingState>, ClientFailure>| #[trigger]
                run.ensures((), reply) && error::answered(
                    reply,
                    r,
                    |state: Option<BillingState>, dto: Option<BillingStateDto>|
                        conversions::shows_optional(
                            state,
                            dto,
                            |value: BillingState, shown: BillingStateDto| shown.shows(value),
                        ),
                ),
        },
{
    let run = match client {
        Ok(run) => run,
        Err(failure) => {
            return Err(BridgeErrorDto::from(failure));
        },
    };
    let reply = run();
    proof {
        assert(run.ensures((), reply));
    }
    match reply {
        Ok(value) => Ok(match value {
            None => None,
            Some(inner) => Some(conversions::billing_state_to_dto(inner)),
        }),
        Err(failure) => Err(BridgeErrorDto::from(failure)),
    }
}

/// The answer to a request for the wake-up channel.
pub fn get_realtime_ticket(
    reply: Result<RealtimeTicket, ClientFailure>,
) -> (r: Result<RealtimeTicketDto, BridgeErrorDto>)
    ensures
        error::answered(
            reply,
            r,
            |ticket: RealtimeTicket, dto: RealtimeTicketDto| dto.shows(ticket),
        ),
{
    match reply {
        Ok(value) => Ok(conversions::realtime_ticket_to_dto(value)),
        Err(failure) => Err(BridgeErrorDto::from(failure)),
    }
}

} // verus!

//! The RPC-backed backend's decision core. Every choice the backend makes —
//! input validation, funding and balance gating, identifier normalization,
//! finality interpretation, failure classification — is a verified function
//! here, stated over the outcome of the transport call it follows. The
//! transport itself (JSON-RPC over HTTP) is an external collaborator: a
//! driver performs each call and feeds the outcome back in.

use vstd::prelude::*;

use crate::classify::{classify_failure, spec_failure_message, spec_is_retriable, RpcFailure};
use crate::config::{BitcoinConfig, BitcoinSecrets};
use crate::gate::funding_failure_msg;
use crate::hexid::{all_hex_exec, decode_hex, decode_hex_exec, is_hex_id, strip_hex_prefix};
use crate::text::{contains_seq, dec_seq, u64_to_string};
use crate::types::{
    to_non_retriable_da_error, to_retriable_da_error, ClientType, DAError, DispatchResponse,
    FinalityResponse, InclusionData, SpecError,
};
use crate::MAX_BLOB_SIZE;

verus! {

/// Message for a wallet whose balance gate found nothing to pay with; it
/// names the funding address so the operator can act.
pub open spec fn zero_balance_msg(addr: Seq<char>) -> Seq<char> {
    "Bitcoin DA wallet has 0 balance. Please fund the operator wallet at address: "@ + addr
}

/// Message for a balance read that failed; the condition is transient.
pub open spec fn balance_read_failure_msg(detail: Seq<char>) -> Seq<char> {
    "Failed to read wallet balance: "@ + detail
}

/// Message for an empty blob.
pub open spec fn empty_blob_msg() -> Seq<char> {
    "Cannot dispatch empty blob"@
}

/// Message for a blob over the size limit, naming both sizes.
pub open spec fn oversize_blob_msg(len: int, limit: int) -> Seq<char> {
    "Blob size "@ + dec_seq(len) + " exceeds the maximum limit of "@ + dec_seq(limit) + " bytes"@
}

/// Message for a malformed request/blob identifier.
pub open spec fn invalid_blob_id_msg() -> Seq<char> {
    "Invalid blob ID format: expected 32-byte hex string"@
}

/// Message for a finality check whose RPC itself failed.
pub open spec fn finality_failure_msg(detail: Seq<char>) -> Seq<char> {
    "Failed to verify finality: "@ + detail
}

fn build_zero_balance_msg(addr: &str) -> (r: String)
    ensures
        r@ == zero_balance_msg(addr@),
{
    let mut msg = String::from_str(
        "Bitcoin DA wallet has 0 balance. Please fund the operator wallet at address: ",
    );
    msg.append(addr);
    msg
}

fn build_balance_read_failure_msg(detail: &str) -> (r: String)
    ensures
        r@ == balance_read_failure_msg(detail@),
{
    let mut msg = String::from_str("Failed to read wallet balance: ");
    msg.append(detail);
    msg
}

fn build_oversize_blob_msg(len: u64, limit: u64) -> (r: String)
    ensures
        r@ == oversize_blob_msg(len as int, limit as int),
{
    let mut msg = String::from_str("Blob size ");
    let len_digits = u64_to_string(len);
    msg.append(len_digits.as_str());
    msg.append(" exceeds the maximum limit of ");
    let limit_digits = u64_to_string(limit);
    msg.append(limit_digits.as_str());
    msg.append(" bytes");
    msg
}

fn build_finality_failure_msg(detail: &str) -> (r: String)
    ensures
        r@ == finality_failure_msg(detail@),
{
    let mut msg = String::from_str("Failed to verify finality: ");
    msg.append(detail);
    msg
}

/// The validation verdict on a blob: empty and oversize blobs are rejected
/// outright, as non-retriable.
pub open spec fn spec_validate_blob(data: Seq<u8>) -> Result<(), SpecError> {
    if data.len() == 0 {
        Err(SpecError { cause: empty_blob_msg(), is_retriable: false })
    } else if data.len() > MAX_BLOB_SIZE {
        Err(
            SpecError {
                cause: oversize_blob_msg(data.len() as int, MAX_BLOB_SIZE as int),
                is_retriable: false,
            },
        )
    } else {
        Ok(())
    }
}

/// Client-side validation of a blob before submission.
pub fn validate_blob(data: &Vec<u8>) -> (r: Result<(), DAError>)
    ensures
        r is Ok <==> spec_validate_blob(data@) is Ok,
        r matches Err(e) ==> spec_validate_blob(data@) == Err::<(), SpecError>(e@),
{
    if data.len() == 0 {
        Err(to_non_retriable_da_error(String::from_str("Cannot dispatch empty blob")))
    } else if data.len() > MAX_BLOB_SIZE {
        Err(
            to_non_retriable_da_error(
                build_oversize_blob_msg(data.len() as u64, MAX_BLOB_SIZE as u64),
            ),
        )
    } else {
        Ok(())
    }
}

/// Decision core of the RPC-backed backend: holds the configured endpoints
/// and credentials, and turns transport outcomes into the capability
/// contract's results. The shared transport connection and the memoized
/// funding address live with the driver that owns the instance.
pub struct BitcoinDAClient {
    api_node_url: String,
    rpc_user: String,
    rpc_password: String,
    poda_url: String,
}

impl BitcoinDAClient {
    pub closed spec fn spec_api_node_url(&self) -> Seq<char> {
        self.api_node_url@
    }

    pub closed spec fn spec_rpc_user(&self) -> Seq<char> {
        self.rpc_user@
    }

    pub closed spec fn spec_rpc_password(&self) -> Seq<char> {
        self.rpc_password@
    }

    pub closed spec fn spec_poda_url(&self) -> Seq<char> {
        self.poda_url@
    }

    /// Remember the configured endpoints and credentials.
    pub fn new(config: BitcoinConfig, secrets: BitcoinSecrets) -> (r: Self)
        ensures
            r.spec_api_node_url() == config.api_node_url@,
            r.spec_poda_url() == config.poda_url@,
            r.spec_rpc_user() == secrets.rpc_user@,
            r.spec_rpc_password() == secrets.rpc_password@,
    {
        BitcoinDAClient {
            api_node_url: config.api_node_url,
            rpc_user: secrets.rpc_user,
            rpc_password: secrets.rpc_password,
            poda_url: config.poda_url,
        }
    }

    /// Retrieve the inclusion artifact for a request id: the id is
    /// normalized by stripping an optional `0x` prefix, must then be exactly
    /// 64 hexadecimal characters, and decodes to the 32-byte identifier hash
    /// which is itself the inclusion data; any deviation is a non-retriable
    /// format error. `None` is never returned here: absence never arises,
    /// because the artifact is computed from the id alone.
    pub fn get_inclusion_data(&self, blob_id: &str) -> (r: Result<Option<InclusionData>, DAError>)
        ensures
            is_hex_id(strip_hex_prefix(blob_id@)) ==> (r matches Ok(Some(d)) && d.data@
                == decode_hex(strip_hex_prefix(blob_id@))),
            !is_hex_id(strip_hex_prefix(blob_id@)) ==> (r matches Err(e) && !e.is_retriable
                && e.cause@ == invalid_blob_id_msg()),
    {
        let len = blob_id.unicode_len();
        let cleaned: &str = if len >= 2 && blob_id.get_char(0) == '0' && blob_id.get_char(1)
            == 'x' {
            blob_id.substring_char(2, len)
        } else {
            blob_id
        };
        proof {
            assert(cleaned@ == strip_hex_prefix(blob_id@));
        }
        if cleaned.unicode_len() != 64 || !all_hex_exec(cleaned) {
            return Err(
                to_non_retriable_da_error(
                    String::from_str("Invalid blob ID format: expected 32-byte hex string"),
                ),
            );
        }
        let bytes = decode_hex_exec(cleaned);
        Ok(Some(InclusionData { data: bytes }))
    }

    /// Interpret the backend's tri-state finality report for a request id:
    /// found and final echoes the id back; found but not yet final is a
    /// valid absent result the caller polls again later; a failed RPC is a
    /// retriable error.
    pub fn ensure_finality(
        &self,
        dispatch_request_id: String,
        finality: Result<bool, String>,
    ) -> (r: Result<Option<FinalityResponse>, DAError>)
        ensures
            finality matches Ok(true) ==> (r matches Ok(Some(f)) && f.blob_id@
                == dispatch_request_id@),
            finality matches Ok(false) ==> (r matches Ok(o) && o is None),
            finality matches Err(detail) ==> (r matches Err(e) && e.is_retriable && e.cause@
                == finality_failure_msg(detail@)),
    {
        match finality {
            Ok(true) => Ok(Some(FinalityResponse { blob_id: dispatch_request_id })),
            Ok(false) => Ok(None),
            Err(detail) => Err(
                to_retriable_da_error(build_finality_failure_msg(detail.as_str())),
            ),
        }
    }

    /// Report the operator's funds from the outcome of a balance read, in
    /// the backend's smallest integer unit; a failed read is retriable.
    pub fn balance_outcome(&self, outcome: Result<u64, String>) -> (r: Result<u64, DAError>)
        ensures
            outcome matches Ok(b) ==> (r matches Ok(rb) && rb == b),
            outcome matches Err(detail) ==> (r matches Err(e) && e.is_retriable && e.cause@
                == detail@),
    {
        match outcome {
            Ok(balance) => Ok(balance),
            Err(detail) => Err(to_retriable_da_error(detail)),
        }
    }

    /// The fixed size limit this backend enforces on blobs.
    pub fn blob_size_limit(&self) -> (r: Option<usize>)
        ensures
            r == Some(MAX_BLOB_SIZE),
    {
        Some(MAX_BLOB_SIZE)
    }

    /// Which backend variant this is.
    pub fn client_type(&self) -> (r: ClientType)
        ensures
            r == ClientType::Bitcoin,
    {
        ClientType::Bitcoin
    }
}

/// The dispatch algorithm's control state, mathematically: dispatch resolves
/// the funding identity, gates on balance, validates the blob, and submits,
/// in that order, stopping at the first failure.
pub ghost enum SpecDispatchState {
    Start,
    CheckingBalance { funding_address: Seq<char> },
    Submitting,
    Done { result: Result<Seq<char>, SpecError> },
}

/// The dispatch algorithm's control state, as the driver carries it.
#[derive(Debug)]
pub enum DispatchState {
    /// Nothing has happened yet; the funding identity is needed first.
    Start,
    /// The funding identity is known; the balance gate is next.
    CheckingBalance { funding_address: String },
    /// All gates passed; the blob may be submitted.
    Submitting,
    /// Dispatch has completed, one way or the other.
    Done { result: Result<DispatchResponse, DAError> },
}

impl View for DispatchState {
    type V = SpecDispatchState;

    open spec fn view(&self) -> SpecDispatchState {
        match self {
            DispatchState::Start => SpecDispatchState::Start,
            DispatchState::CheckingBalance { funding_address } => {
                SpecDispatchState::CheckingBalance { funding_address: funding_address@ }
            },
            DispatchState::Submitting => SpecDispatchState::Submitting,
            DispatchState::Done { result } => SpecDispatchState::Done {
                result: match result {
                    Ok(resp) => Ok(resp.request_id@),
                    Err(e) => Err(e@),
                },
            },
        }
    }
}

/// The outcome of the one transport call the current state asked for.
#[derive(Debug)]
pub enum DispatchEvent {
    /// The funding gate resolved: the funding address, or the wallet-ensure
    /// failure detail.
    FundingResolved { outcome: Result<String, String> },
    /// The balance was read (in the smallest integer unit), or the read
    /// failed.
    BalanceRead { outcome: Result<u64, String> },
    /// The blob was submitted and the backend assigned it an id, or the
    /// submission failed.
    Submitted { outcome: Result<String, RpcFailure> },
}

/// What the driver must do next in a given state.
#[derive(Clone, Copy, Debug, PartialEq, Eq, Structural)]
pub enum DispatchAction {
    ResolveFunding,
    ReadBalance,
    SubmitBlob,
    Finish,
}

/// One transition of the dispatch algorithm. A funding failure is
/// non-retriable (a setup problem); zero balance is non-retriable and the
/// message names the funding address; a failed balance read is retriable;
/// an invalid blob is rejected as validation says; a submission outcome is
/// judged by the error classifier. An event that is not the answer to the
/// state's pending action changes nothing.
pub open spec fn spec_step(
    s: SpecDispatchState,
    e: DispatchEvent,
    data: Seq<u8>,
) -> SpecDispatchState {
    match s {
        SpecDispatchState::Start => match e {
            DispatchEvent::FundingResolved { outcome } => match outcome {
                Ok(addr) => SpecDispatchState::CheckingBalance { funding_address: addr@ },
                Err(detail) => SpecDispatchState::Done {
                    result: Err(
                        SpecError { cause: funding_failure_msg(detail@), is_retriable: false },
                    ),
                },
            },
            _ => s,
        },
        SpecDispatchState::CheckingBalance { funding_address } => match e {
            DispatchEvent::BalanceRead { outcome } => match outcome {
                Ok(bal) => if bal == 0 {
                    SpecDispatchState::Done {
                        result: Err(
                            SpecError {
                                cause: zero_balance_msg(funding_address),
                                is_retriable: false,
                            },
                        ),
                    }
                } else {
                    match spec_validate_blob(data) {
                        Ok(_) => SpecDispatchState::Submitting,
                        Err(err) => SpecDispatchState::Done { result: Err(err) },
                    }
                },
                Err(detail) => SpecDispatchState::Done {
                    result: Err(
                        SpecError {
                            cause: balance_read_failure_msg(detail@),
                            is_retriable: true,
                        },
                    ),
                },
            },
            _ => s,
        },
        SpecDispatchState::Submitting => match e {
            DispatchEvent::Submitted { outcome } => match outcome {
                Ok(id) => SpecDispatchState::Done { result: Ok(id@) },
                Err(failure) => SpecDispatchState::Done {
                    result: Err(
                        SpecError {
                            cause: spec_failure_message(failure),
                            is_retriable: spec_is_retriable(failure),
                        },
                    ),
                },
            },
            _ => s,
        },
        SpecDispatchState::Done { .. } => s,
    }
}

/// Which transport call the driver owes the machine next.
pub open spec fn spec_next_action(s: SpecDispatchState) -> DispatchAction {
    match s {
        SpecDispatchState::Start => DispatchAction::ResolveFunding,
        SpecDispatchState::CheckingBalance { .. } => DispatchAction::ReadBalance,
        SpecDispatchState::Submitting => DispatchAction::SubmitBlob,
        SpecDispatchState::Done { .. } => DispatchAction::Finish,
    }
}

/// Which transport call the driver owes the machine next.
pub fn next_action(s: &DispatchState) -> (a: DispatchAction)
    ensures
        a == spec_next_action(s@),
{
    match s {
        DispatchState::Start => DispatchAction::ResolveFunding,
        DispatchState::CheckingBalance { .. } => DispatchAction::ReadBalance,
        DispatchState::Submitting => DispatchAction::SubmitBlob,
        DispatchState::Done { .. } => DispatchAction::Finish,
    }
}

/// Advance the dispatch algorithm by one transport outcome.
pub fn dispatch_step(s: DispatchState, e: DispatchEvent, data: &Vec<u8>) -> (r: DispatchState)
    ensures
        r@ == spec_step(s@, e, data@),
{
    match s {
        DispatchState::Start => match e {
            DispatchEvent::FundingResolved { outcome } => match outcome {
                Ok(addr) => DispatchState::CheckingBalance { funding_address: addr },
                Err(detail) => DispatchState::Done {
                    result: Err(
                        to_non_retriable_da_error(
                            crate::gate::funding_failure_message(detail.as_str()),
                        ),
                    ),
                },
            },
            _ => DispatchState::Start,
        },
        DispatchState::CheckingBalance { funding_address } => match e {
            DispatchEvent::BalanceRead { outcome } => match outcome {
                Ok(bal) => {
                    if bal == 0 {
                        DispatchState::Done {
                            result: Err(
                                to_non_retriable_da_error(
                                    build_zero_balance_msg(funding_address.as_str()),
                                ),
                            ),
                        }
                    } else {
                        match validate_blob(data) {
                            Ok(_) => DispatchState::Submitting,
                            Err(err) => DispatchState::Done { result: Err(err) },
                        }
                    }
                },
                Err(detail) => DispatchState::Done {
                    result: Err(
                        to_retriable_da_error(build_balance_read_failure_msg(detail.as_str())),
                    ),
                },
            },
            _ => DispatchState::CheckingBalance { funding_address },
        },
        DispatchState::Submitting => match e {
            DispatchEvent::Submitted { outcome } => match outcome {
                Ok(id) => DispatchState::Done {
                    result: Ok(DispatchResponse { request_id: id }),
                },
                Err(failure) => DispatchState::Done { result: Err(classify_failure(failure)) },
            },
            _ => DispatchState::Submitting,
        },
        DispatchState::Done { result } => DispatchState::Done { result },
    }
}

/// Where the machine ends up after feeding it a sequence of outcomes.
pub open spec fn spec_run(
    s: SpecDispatchState,
    events: Seq<DispatchEvent>,
    data: Seq<u8>,
) -> SpecDispatchState
    decreases events.len(),
{
    if events.len() == 0 {
        s
    } else {
        spec_run(spec_step(s, events[0], data), events.drop_first(), data)
    }
}

/// No balance read among the events failed. (A failed read is transient and
/// surfaces as a retriable error of its own.)
pub open spec fn balance_reads_succeed(events: Seq<DispatchEvent>) -> bool {
    forall|i: int|
        0 <= i < events.len() ==> !(#[trigger] events[i] matches DispatchEvent::BalanceRead {
            outcome: Err(_),
        })
}

/// An invalid blob keeps the machine away from submission and from success,
/// and keeps a completed error non-retriable (absent failed balance reads).
spec fn blocked(s: SpecDispatchState) -> bool {
    match s {
        SpecDispatchState::Submitting => false,
        SpecDispatchState::Done { result } => result is Err,
        _ => true,
    }
}

spec fn blocked_non_retriable(s: SpecDispatchState) -> bool {
    match s {
        SpecDispatchState::Submitting => false,
        SpecDispatchState::Done { result } => result matches Err(e) && !e.is_retriable,
        _ => true,
    }
}

proof fn lemma_blocked_run(s: SpecDispatchState, events: Seq<DispatchEvent>, data: Seq<u8>)
    requires
        spec_validate_blob(data) is Err,
        blocked(s),
    ensures
        blocked(spec_run(s, events, data)),
        blocked_non_retriable(s) && balance_reads_succeed(events) ==> blocked_non_retriable(
            spec_run(s, events, data),
        ),
    decreases events.len(),
{
    if events.len() > 0 {
        let stepped = spec_step(s, events[0], data);
        assert(spec_validate_blob(data) matches Err(err) && !err.is_retriable);
        lemma_blocked_run(stepped, events.drop_first(), data);
        if balance_reads_succeed(events) {
            assert(!(events[0] matches DispatchEvent::BalanceRead { outcome: Err(_) }));
            assert forall|i: int|
                0 <= i < events.drop_first().len() implies !(#[trigger] events.drop_first()[i]
                    matches DispatchEvent::BalanceRead { outcome: Err(_) }) by {
                assert(events.drop_first()[i] == events[i + 1]);
                assert(!(events[i + 1] matches DispatchEvent::BalanceRead { outcome: Err(_) }));
            }
        }
    }
}

/// Dispatching empty data never succeeds: no run on it reaches submission or
/// ends in success, and when every balance read succeeded, a completed run's
/// error is non-retriable. (A failed balance read itself surfaces earlier,
/// as a retriable error of its own.)
pub proof fn lemma_empty_blob_never_dispatched(events: Seq<DispatchEvent>, data: Seq<u8>)
    requires
        data.len() == 0,
    ensures
        !(spec_run(SpecDispatchState::Start, events, data) is Submitting),
        spec_run(SpecDispatchState::Start, events, data) matches SpecDispatchState::Done {
            result,
        } ==> result is Err,
        balance_reads_succeed(events) ==> (spec_run(
            SpecDispatchState::Start,
            events,
            data,
        ) matches SpecDispatchState::Done { result: Err(e) } ==> !e.is_retriable),
{
    lemma_blocked_run(SpecDispatchState::Start, events, data);
}

/// Dispatching data over the size limit never succeeds, in exactly the way
/// an empty blob never does.
pub proof fn lemma_oversize_blob_never_dispatched(events: Seq<DispatchEvent>, data: Seq<u8>)
    requires
        data.len() > MAX_BLOB_SIZE,
    ensures
        !(spec_run(SpecDispatchState::Start, events, data) is Submitting),
        spec_run(SpecDispatchState::Start, events, data) matches SpecDispatchState::Done {
            result,
        } ==> result is Err,
        balance_reads_succeed(events) ==> (spec_run(
            SpecDispatchState::Start,
            events,
            data,
        ) matches SpecDispatchState::Done { result: Err(e) } ==> !e.is_retriable),
{
    lemma_blocked_run(SpecDispatchState::Start, events, data);
}

/// A blob of any size up to and including the limit passes every gate: when
/// funding resolves, the balance is positive and the submission is accepted,
/// dispatch completes successfully with the id the backend assigned.
pub proof fn lemma_valid_blob_dispatched(addr: String, bal: u64, id: String, data: Seq<u8>)
    requires
        1 <= data.len() <= MAX_BLOB_SIZE,
        bal > 0,
    ensures
        ({
            let events = seq![
                DispatchEvent::FundingResolved { outcome: Ok(addr) },
                DispatchEvent::BalanceRead { outcome: Ok(bal) },
                DispatchEvent::Submitted { outcome: Ok(id) },
            ];
            spec_run(SpecDispatchState::Start, events, data) == (SpecDispatchState::Done {
                result: Ok::<Seq<char>, SpecError>(id@),
            })
        }),
{
    let events = seq![
        DispatchEvent::FundingResolved { outcome: Ok(addr) },
        DispatchEvent::BalanceRead { outcome: Ok(bal) },
        DispatchEvent::Submitted { outcome: Ok(id) },
    ];
    let s1 = spec_step(SpecDispatchState::Start, events[0], data);
    assert(s1 == SpecDispatchState::CheckingBalance { funding_address: addr@ });
    let rest1 = events.drop_first();
    assert(rest1[0] == events[1]);
    let s2 = spec_step(s1, rest1[0], data);
    assert(s2 == SpecDispatchState::Submitting);
    let rest2 = rest1.drop_first();
    assert(rest2[0] == events[2]);
    let s3 = spec_step(s2, rest2[0], data);
    assert(s3 == SpecDispatchState::Done { result: Ok::<Seq<char>, SpecError>(id@) });
    let rest3 = rest2.drop_first();
    assert(rest3.len() == 0);
    assert(spec_run(SpecDispatchState::Start, events, data) == spec_run(s1, rest1, data));
    assert(spec_run(s1, rest1, data) == spec_run(s2, rest2, data));
    assert(spec_run(s2, rest2, data) == spec_run(s3, rest3, data));
    assert(spec_run(s3, rest3, data) == s3);
}

/// When the funding address is known and the balance gate then finds zero
/// funds, dispatch completes at once with a non-retriable error whose
/// message contains that funding address, whatever the data was.
pub proof fn lemma_zero_balance_names_address(
    addr: Seq<char>,
    e: DispatchEvent,
    data: Seq<u8>,
)
    requires
        e matches DispatchEvent::BalanceRead { outcome: Ok(0u64) },
    ensures
        spec_step(
            SpecDispatchState::CheckingBalance { funding_address: addr },
            e,
            data,
        ) matches SpecDispatchState::Done { result: Err(err) } && !err.is_retriable
            && err.cause == zero_balance_msg(addr) && contains_seq(err.cause, addr),
{
    crate::text::lemma_concat_contains_suffix(
        "Bitcoin DA wallet has 0 balance. Please fund the operator wallet at address: "@,
        addr,
    );
}

impl Clone for BitcoinDAClient {
    /// A clone carries the same endpoints and credentials; the driver that
    /// owns the instance shares the transport connection and memoized state
    /// among clones rather than duplicating them.
    fn clone(&self) -> (r: Self)
        ensures
            r == *self,
    {
        BitcoinDAClient {
            api_node_url: self.api_node_url.clone(),
            rpc_user: self.rpc_user.clone(),
            rpc_password: self.rpc_password.clone(),
            poda_url: self.poda_url.clone(),
        }
    }
}

} // verus!

use vstd::prelude::*;
use vstd::string::*;
use vstd::utf8::encode_utf8;
use crate::consts::{ID_LENGTH, MAX_ID_LENGTH, UUID_LENGTH};
use crate::enums::{DisputeStage, DisputeStatus};
use crate::errors::{ApiErrorResponse, WebhooksFlowError};
use crate::metrics::DisputeValidationFailureCounter;
use crate::types::{PaymentAttempt, Settings};

verus! {

/// Number of bytes in the UTF-8 encoding of a text.
pub open spec fn byte_count(text: Seq<char>) -> nat {
    encode_utf8(text).len()
}

/// Length of a text in bytes of its UTF-8 encoding, as `str::len` reports it.
pub open spec fn byte_length(text: Seq<char>) -> usize {
    byte_count(text) as usize
}

/// The characters that a generated identifier draws its random part from.
pub open spec fn is_id_character(c: char) -> bool {
    ('0' <= c && c <= '9') || ('A' <= c && c <= 'Z') || ('a' <= c && c <= 'z')
}

/// `id` is `prefix` followed by `length` identifier characters, and nothing
/// else.
pub open spec fn is_generated_id(id: Seq<char>, prefix: Seq<char>, length: nat) -> bool {
    &&& id.len() == prefix.len() + length
    &&& id.subrange(0, prefix.len() as int) == prefix
    &&& forall|i: int| prefix.len() <= i < id.len() ==> is_id_character(#[trigger] id[i])
}

/// A prefix with a suffix right behind it.
pub open spec fn prefixed_text(prefix: Seq<char>, suffix: Seq<char>) -> Seq<char> {
    prefix + suffix
}

/// The message that tells a caller which length an identifier may have.
pub open spec fn expected_id_format() -> Seq<char> {
    "length should be less than 64 characters"@
}

/// `error` is the rejection of the identifier held in the field `key`.
pub open spec fn is_invalid_id_format(error: ApiErrorResponse, key: Seq<char>) -> bool {
    match error {
        ApiErrorResponse::InvalidDataFormat { field_name, expected_format } => {
            field_name@ == key && expected_format@ == expected_id_format()
        },
        _ => false,
    }
}

/// Whether `uuid::Uuid::parse_str` accepts a text. The accepted grammar
/// (simple, hyphenated, braced and URN forms) is that of the `uuid` crate.
pub uninterp spec fn uuid_text_parses(text: Seq<char>) -> bool;

/// Calls `nanoid::format` with that crate's default random source. Every
/// outcome has `size` characters, each taken from `alphabet`. The call does
/// not return for an empty alphabet or a size of zero and panics on an
/// alphabet of more than 255 symbols, so those are left out; with symbols
/// beyond ASCII the byte count it goes by would differ from the character
/// count.
#[verifier::external_body]
fn random_string(alphabet: &Vec<char>, size: usize) -> (id: String)
    requires
        0 < size <= usize::MAX / 8,
        0 < alphabet@.len() <= 255,
        forall|j: int| 0 <= j < alphabet@.len() ==> (#[trigger] alphabet@[j] as u32) < 128,
    ensures
        id@.len() == size,
        forall|i: int| 0 <= i < id@.len() ==> alphabet@.contains(#[trigger] id@[i]),
{
    nanoid::format(nanoid::rngs::default, alphabet.as_slice(), size)
}

/// Calls `uuid::Uuid::new_v4` and writes the value in its default, hyphenated
/// form: 36 ASCII characters, which `uuid::Uuid::parse_str` reads back.
#[verifier::external_body]
fn random_uuid_text() -> (id: String)
    ensures
        id@.len() == UUID_LENGTH,
        byte_length(id@) == UUID_LENGTH,
        uuid_text_parses(id@),
{
    uuid::Uuid::new_v4().to_string()
}

/// Calls `uuid::Uuid::parse_str` and reports whether it accepted the text.
#[verifier::external_body]
fn parses_as_uuid(text: &str) -> (accepted: bool)
    ensures
        accepted == uuid_text_parses(text@),
{
    uuid::Uuid::parse_str(text).is_ok()
}

/// The digits and the unaccented letters of both cases.
fn id_alphabet() -> (alphabet: Vec<char>)
    ensures
        alphabet@.len() == 62,
        forall|j: int| 0 <= j < alphabet@.len() ==> is_id_character(#[trigger] alphabet@[j]),
{
    let alphabet: Vec<char> = vec![
        '0', '1', '2', '3', '4', '5', '6', '7', '8', '9',
        'A', 'B', 'C', 'D', 'E', 'F', 'G', 'H', 'I', 'J', 'K', 'L', 'M',
        'N', 'O', 'P', 'Q', 'R', 'S', 'T', 'U', 'V', 'W', 'X', 'Y', 'Z',
        'a', 'b', 'c', 'd', 'e', 'f', 'g', 'h', 'i', 'j', 'k', 'l', 'm',
        'n', 'o', 'p', 'q', 'r', 's', 't', 'u', 'v', 'w', 'x', 'y', 'z',
    ];
    alphabet
}

/// The encoding of two texts in a row is the two encodings in a row.
pub proof fn lemma_encoding_of_concatenation(left: Seq<char>, right: Seq<char>)
    ensures
        encode_utf8(left + right) == encode_utf8(left) + encode_utf8(right),
    decreases left.len(),
{
    if left.len() == 0 {
        assert(left + right =~= right);
        assert(encode_utf8(left) + encode_utf8(right) =~= encode_utf8(right));
    } else {
        assert((left + right).drop_first() =~= left.drop_first() + right);
        assert((left + right)[0] == left[0]);
        lemma_encoding_of_concatenation(left.drop_first(), right);
        assert(encode_utf8(left + right) =~= encode_utf8(left) + encode_utf8(right));
    }
}

/// A text of identifier characters takes one byte for each character.
pub proof fn lemma_id_characters_take_one_byte(text: Seq<char>)
    requires
        forall|i: int| 0 <= i < text.len() ==> is_id_character(#[trigger] text[i]),
    ensures
        byte_count(text) == text.len(),
    decreases text.len(),
{
    if text.len() > 0 {
        let first = text[0];
        assert(is_id_character(first));
        assert((first as u32) <= 0x7F);
        assert(vstd::utf8::encode_scalar(first as u32).len() == 1);
        let rest = text.drop_first();
        assert forall|i: int| 0 <= i < rest.len() implies is_id_character(#[trigger] rest[i]) by {
            assert(rest[i] == text[i + 1]);
        }
        lemma_id_characters_take_one_byte(rest);
    }
}

/// A generated identifier is longer than its prefix by the random
/// characters and by nothing else, counted in characters and in bytes alike.
pub proof fn lemma_generated_id_length(id: Seq<char>, prefix: Seq<char>, length: nat)
    requires
        is_generated_id(id, prefix, length),
    ensures
        id.len() == prefix.len() + length,
        byte_count(id) == byte_count(prefix) + length,
{
    let tail = id.subrange(prefix.len() as int, id.len() as int);
    assert(id =~= prefix + tail);
    lemma_encoding_of_concatenation(prefix, tail);
    assert forall|i: int| 0 <= i < tail.len() implies is_id_character(#[trigger] tail[i]) by {
        assert(tail[i] == id[prefix.len() + i]);
    }
    lemma_id_characters_take_one_byte(tail);
}

/// Puts a suffix right behind a prefix.
pub fn prefixed_id(prefix: &str, suffix: &str) -> (id: String)
    ensures
        id@ == prefixed_text(prefix@, suffix@),
{
    let mut id = String::from_str(prefix);
    id.append(suffix);
    id
}

/// A fresh identifier: `prefix` followed by `length` random characters out
/// of digits and letters.
pub fn generate_id(length: usize, prefix: &str) -> (id: String)
    requires
        0 < length <= usize::MAX / 8,
    ensures
        is_generated_id(id@, prefix@, length as nat),
        byte_count(id@) == byte_count(prefix@) + length,
{
    let alphabet = id_alphabet();
    let suffix = random_string(&alphabet, length);
    let id = prefixed_id(prefix, suffix.as_str());
    proof {
        assert(id@.subrange(0, prefix@.len() as int) =~= prefix@);
        assert forall|i: int| prefix@.len() <= i < id@.len() implies is_id_character(
            #[trigger] id@[i],
        ) by {
            let c = suffix@[i - prefix@.len()];
            assert(id@[i] == c);
            assert(alphabet@.contains(c));
        }
        lemma_generated_id_length(id@, prefix@, length as nat);
    }
    id
}

/// A fresh UUID in its hyphenated form.
pub fn generate_uuid() -> (id: String)
    ensures
        id@.len() == UUID_LENGTH,
        byte_length(id@) == UUID_LENGTH,
        uuid_text_parses(id@),
{
    random_uuid_text()
}

/// The rejection of an identifier that is too long or ill-formed, naming the
/// field it came in.
pub fn invalid_id_format_error(key: &str) -> (error: ApiErrorResponse)
    ensures
        is_invalid_id_format(error, key@),
{
    ApiErrorResponse::InvalidDataFormat {
        field_name: key.to_owned(),
        expected_format: "length should be less than 64 characters".to_owned(),
    }
}

/// Accepts an identifier of at most `MAX_ID_LENGTH` bytes and hands it back
/// untouched; rejects a longer one.
pub fn validate_id(id: String, key: &str) -> (result: Result<String, ApiErrorResponse>)
    ensures
        byte_length(id@) <= MAX_ID_LENGTH ==> result == Ok::<String, ApiErrorResponse>(id),
        byte_length(id@) > MAX_ID_LENGTH ==> result is Err && is_invalid_id_format(
            result->Err_0,
            key@,
        ),
{
    if id.as_str().len() > MAX_ID_LENGTH {
        Err(invalid_id_format_error(key))
    } else {
        Ok(id)
    }
}

/// Accepts an identifier that reads as a UUID and has at most `MAX_ID_LENGTH`
/// bytes, and hands it back untouched; rejects any other.
pub fn validate_uuid(uuid: String, key: &str) -> (result: Result<String, ApiErrorResponse>)
    ensures
        uuid_text_parses(uuid@) && byte_length(uuid@) <= MAX_ID_LENGTH ==> result == Ok::<
            String,
            ApiErrorResponse,
        >(uuid),
        !(uuid_text_parses(uuid@) && byte_length(uuid@) <= MAX_ID_LENGTH) ==> result is Err
            && is_invalid_id_format(result->Err_0, key@),
{
    let accepted = parses_as_uuid(uuid.as_str());
    check_uuid(uuid, accepted, key)
}

/// The verdict on a supplied UUID once the `uuid` parser has spoken:
/// `accepted` says whether it read the text.
pub fn check_uuid(uuid: String, accepted: bool, key: &str) -> (result: Result<
    String,
    ApiErrorResponse,
>)
    ensures
        accepted && byte_length(uuid@) <= MAX_ID_LENGTH ==> result == Ok::<
            String,
            ApiErrorResponse,
        >(uuid),
        !(accepted && byte_length(uuid@) <= MAX_ID_LENGTH) ==> result is Err
            && is_invalid_id_format(result->Err_0, key@),
{
    if accepted && uuid.as_str().len() <= MAX_ID_LENGTH {
        Ok(uuid)
    } else {
        Err(invalid_id_format_error(key))
    }
}

/// The supplied identifier if it passes `validate_id`, a generated one if
/// none was supplied.
pub fn get_or_generate_id(key: &str, provided_id: &Option<String>, prefix: &str) -> (result:
    Result<String, ApiErrorResponse>)
    ensures
        match *provided_id {
            Some(id) => {
                &&& byte_length(id@) <= MAX_ID_LENGTH ==> result == Ok::<String, ApiErrorResponse>(
                    id,
                )
                &&& byte_length(id@) > MAX_ID_LENGTH ==> result is Err && is_invalid_id_format(
                    result->Err_0,
                    key@,
                )
            },
            None => {
                &&& result is Ok
                &&& is_generated_id(result->Ok_0@, prefix@, ID_LENGTH as nat)
                &&& result->Ok_0@.len() == prefix@.len() + ID_LENGTH
                &&& byte_count(result->Ok_0@) == byte_count(prefix@) + ID_LENGTH
            },
        },
{
    match provided_id {
        Some(id) => validate_id(id.clone(), key),
        None => Ok(generate_id(ID_LENGTH, prefix)),
    }
}

/// The supplied identifier if it passes `validate_uuid`, a fresh UUID if none
/// was supplied.
pub fn get_or_generate_uuid(key: &str, provided_id: Option<&String>) -> (result: Result<
    String,
    ApiErrorResponse,
>)
    ensures
        match provided_id {
            Some(id) => {
                &&& uuid_text_parses(id@) && byte_length(id@) <= MAX_ID_LENGTH ==> result == Ok::<
                    String,
                    ApiErrorResponse,
                >(*id)
                &&& !(uuid_text_parses(id@) && byte_length(id@) <= MAX_ID_LENGTH) ==> result is Err
                    && is_invalid_id_format(result->Err_0, key@)
            },
            None => {
                &&& result is Ok
                &&& result->Ok_0@.len() == UUID_LENGTH
                &&& byte_length(result->Ok_0@) == UUID_LENGTH
                &&& uuid_text_parses(result->Ok_0@)
            },
        },
{
    match provided_id {
        Some(id) => validate_uuid(id.clone(), key),
        None => Ok(generate_uuid()),
    }
}

/// Place of a stage on the one road a dispute travels.
pub open spec fn stage_rank(stage: DisputeStage) -> nat {
    match stage {
        DisputeStage::PreDispute => 0,
        DisputeStage::Dispute => 1,
        DisputeStage::PreArbitration => 2,
    }
}

/// A dispute may stay at its stage or move to a later one.
pub open spec fn stage_may_follow(previous: DisputeStage, next: DisputeStage) -> bool {
    stage_rank(previous) <= stage_rank(next)
}

/// Within one stage an opened dispute may take any status, a challenged one
/// may be won or lost, and every status may repeat; nothing else moves.
pub open spec fn status_may_follow(previous: DisputeStatus, next: DisputeStatus) -> bool {
    ||| previous == DisputeStatus::DisputeOpened
    ||| next == previous
    ||| (previous == DisputeStatus::DisputeChallenged && (next == DisputeStatus::DisputeWon || next
        == DisputeStatus::DisputeLost))
}

/// A delivery is in order when the stage does not go back and, where the
/// stage stays, the status moves as `status_may_follow` allows. A stage that
/// advances takes whatever status comes with it.
pub open spec fn transition_valid(
    previous_stage: DisputeStage,
    previous_status: DisputeStatus,
    stage: DisputeStage,
    status: DisputeStatus,
) -> bool {
    &&& stage_may_follow(previous_stage, stage)
    &&& stage == previous_stage ==> status_may_follow(previous_status, status)
}

/// Whether a dispute at `prev_dispute_stage` may be reported at
/// `dispute_stage`.
pub fn validate_dispute_stage(prev_dispute_stage: &DisputeStage, dispute_stage: &DisputeStage) -> (valid:
    bool)
    ensures
        valid == stage_may_follow(*prev_dispute_stage, *dispute_stage),
{
    match prev_dispute_stage {
        DisputeStage::PreDispute => true,
        DisputeStage::Dispute => !matches!(dispute_stage, DisputeStage::PreDispute),
        DisputeStage::PreArbitration => matches!(dispute_stage, DisputeStage::PreArbitration),
    }
}

/// Whether a dispute with `prev_dispute_status` may be reported with
/// `dispute_status` while its stage stays.
pub fn validate_dispute_status(prev_dispute_status: DisputeStatus, dispute_status: DisputeStatus) -> (valid:
    bool)
    ensures
        valid == status_may_follow(prev_dispute_status, dispute_status),
{
    match prev_dispute_status {
        DisputeStatus::DisputeOpened => true,
        DisputeStatus::DisputeExpired => matches!(dispute_status, DisputeStatus::DisputeExpired),
        DisputeStatus::DisputeAccepted => matches!(dispute_status, DisputeStatus::DisputeAccepted),
        DisputeStatus::DisputeCancelled => matches!(
            dispute_status,
            DisputeStatus::DisputeCancelled
        ),
        DisputeStatus::DisputeChallenged => matches!(
            dispute_status,
            DisputeStatus::DisputeChallenged | DisputeStatus::DisputeWon
                | DisputeStatus::DisputeLost
        ),
        DisputeStatus::DisputeWon => matches!(dispute_status, DisputeStatus::DisputeWon),
        DisputeStatus::DisputeLost => matches!(dispute_status, DisputeStatus::DisputeLost),
    }
}

/// Checks one delivery against the state on record. A delivery out of order
/// is refused and counted; one in order leaves the counter alone.
pub fn validate_dispute_stage_and_dispute_status(
    prev_dispute_stage: DisputeStage,
    prev_dispute_status: DisputeStatus,
    dispute_stage: DisputeStage,
    dispute_status: DisputeStatus,
    failures: &mut DisputeValidationFailureCounter,
) -> (result: Result<(), WebhooksFlowError>)
    ensures
        result is Ok <==> transition_valid(
            prev_dispute_stage,
            prev_dispute_status,
            dispute_stage,
            dispute_status,
        ),
        result is Err ==> result->Err_0 == WebhooksFlowError::DisputeWebhookValidationFailed,
        result is Ok ==> final(failures)@ == old(failures)@,
        result is Err ==> final(failures)@ == DisputeValidationFailureCounter::after_add(
            old(failures)@,
            1,
        ),
{
    let dispute_stage_validation = validate_dispute_stage(&prev_dispute_stage, &dispute_stage);
    let dispute_status_validation = if dispute_stage == prev_dispute_stage {
        validate_dispute_status(prev_dispute_status, dispute_status)
    } else {
        true
    };
    if !(dispute_stage_validation && dispute_status_validation) {
        failures.add(1);
        Err(WebhooksFlowError::DisputeWebhookValidationFailed)
    } else {
        Ok(())
    }
}

/// Whether two texts hold the same characters.
pub fn same_text(left: &str, right: &str) -> (same: bool)
    ensures
        same == (left@ == right@),
{
    let left_owned = left.to_owned();
    let right_owned = right.to_owned();
    left_owned == right_owned
}

/// The merchant is among those set up to send the payment id as request
/// reference.
pub open spec fn merchant_listed(conf: &Settings, merchant_id: Seq<char>) -> bool {
    let listed =
        conf.connector_request_reference_id_config.merchant_ids_send_payment_id_as_connector_request_id@;
    exists|i: int| 0 <= i < listed.len() && (#[trigger] listed[i])@ == merchant_id
}

/// Whether the settings list the merchant among those whose payment id is
/// sent to gateways as request reference.
pub fn is_merchant_enabled_for_payment_id_as_connector_request_id(
    conf: &Settings,
    merchant_id: &str,
) -> (enabled: bool)
    ensures
        enabled == merchant_listed(conf, merchant_id@),
{
    let config_map =
        &conf.connector_request_reference_id_config.merchant_ids_send_payment_id_as_connector_request_id;
    let mut i: usize = 0;
    while i < config_map.len()
        invariant
            i <= config_map@.len(),
            config_map@
                == conf.connector_request_reference_id_config.merchant_ids_send_payment_id_as_connector_request_id@,
            forall|j: int| 0 <= j < i ==> (#[trigger] config_map@[j])@ != merchant_id@,
        decreases config_map@.len() - i,
    {
        if same_text(config_map[i].as_str(), merchant_id) {
            return true;
        }
        i += 1;
    }
    false
}

/// The pure choice behind the request reference: the payment id where the
/// merchant is set up for it, the attempt id otherwise.
pub fn choose_correlation_id(use_payment_id: bool, payment_id: &String, attempt_id: &String) -> (id:
    String)
    ensures
        id == if use_payment_id {
            *payment_id
        } else {
            *attempt_id
        },
{
    if use_payment_id {
        payment_id.clone()
    } else {
        attempt_id.clone()
    }
}

/// The reference sent to the gateway with a request for this attempt.
pub fn get_connector_request_reference_id(
    conf: &Settings,
    merchant_id: &str,
    payment_attempt: &PaymentAttempt,
) -> (id: String)
    ensures
        id == if merchant_listed(conf, merchant_id@) {
            payment_attempt.payment_id
        } else {
            payment_attempt.attempt_id
        },
{
    let is_config_enabled_for_merchant = is_merchant_enabled_for_payment_id_as_connector_request_id(
        conf,
        merchant_id,
    );
    choose_correlation_id(
        is_config_enabled_for_merchant,
        &payment_attempt.payment_id,
        &payment_attempt.attempt_id,
    )
}

/// A delivery that repeats the state on record is always in order, so a
/// retried or duplicated webhook is accepted and changes nothing.
pub proof fn lemma_redelivery_is_valid(stage: DisputeStage, status: DisputeStatus)
    ensures
        transition_valid(stage, status, stage, status),
{
}

/// No delivery that is in order takes a dispute to an earlier stage; in
/// particular nothing leads from `Dispute` or `PreArbitration` back to
/// `PreDispute`, whatever the statuses.
pub proof fn lemma_stage_never_goes_back(
    previous_stage: DisputeStage,
    previous_status: DisputeStatus,
    stage: DisputeStage,
    status: DisputeStatus,
)
    ensures
        transition_valid(previous_stage, previous_status, stage, status) ==> stage_rank(
            previous_stage,
        ) <= stage_rank(stage),
        previous_stage != DisputeStage::PreDispute && stage == DisputeStage::PreDispute
            ==> !transition_valid(previous_stage, previous_status, stage, status),
{
}

/// A stage that advances is accepted with any status.
pub proof fn lemma_stage_advance_takes_any_status(
    previous_stage: DisputeStage,
    previous_status: DisputeStatus,
    stage: DisputeStage,
    status: DisputeStatus,
)
    requires
        stage_rank(previous_stage) < stage_rank(stage),
    ensures
        transition_valid(previous_stage, previous_status, stage, status),
{
}

/// Within one stage the statuses `Expired`, `Accepted`, `Cancelled`, `Won`
/// and `Lost` are final: the only delivery in order repeats them.
pub proof fn lemma_final_statuses_only_repeat(
    stage: DisputeStage,
    previous_status: DisputeStatus,
    status: DisputeStatus,
)
    requires
        previous_status != DisputeStatus::DisputeOpened,
        previous_status != DisputeStatus::DisputeChallenged,
    ensures
        transition_valid(stage, previous_status, stage, status) <==> status == previous_status,
{
}

/// Deliveries in order compose: where a first and a second one are accepted
/// in turn, the state they lead to would also have been accepted directly.
pub proof fn lemma_transitions_compose(
    first_stage: DisputeStage,
    first_status: DisputeStatus,
    second_stage: DisputeStage,
    second_status: DisputeStatus,
    third_stage: DisputeStage,
    third_status: DisputeStatus,
)
    requires
        transition_valid(first_stage, first_status, second_stage, second_status),
        transition_valid(second_stage, second_status, third_stage, third_status),
    ensures
        transition_valid(first_stage, first_status, third_stage, third_status),
{
}

/// Where a dispute stands: its stage and, within the stage, its status.
#[derive(Clone, Copy, Debug, PartialEq, Eq, Structural)]
pub struct DisputeState {
    pub stage: DisputeStage,
    pub status: DisputeStatus,
}

/// The state on record once a delivery has been looked at: the delivered
/// state where the delivery is in order, the state as it was otherwise.
pub open spec fn state_after_delivery(state: DisputeState, delivery: DisputeState) -> DisputeState {
    if transition_valid(state.stage, state.status, delivery.stage, delivery.status) {
        delivery
    } else {
        state
    }
}

/// The state on record once a run of deliveries has been looked at, one
/// after the other.
pub open spec fn state_after_deliveries(
    state: DisputeState,
    deliveries: Seq<DisputeState>,
) -> DisputeState
    decreases deliveries.len(),
{
    if deliveries.len() == 0 {
        state
    } else {
        state_after_delivery(
            state_after_deliveries(state, deliveries.drop_last()),
            deliveries.last(),
        )
    }
}

impl DisputeState {
    /// The state in which every dispute begins.
    pub fn initial() -> (state: Self)
        ensures
            state == (DisputeState {
                stage: DisputeStage::PreDispute,
                status: DisputeStatus::DisputeOpened,
            }),
    {
        DisputeState { stage: DisputeStage::PreDispute, status: DisputeStatus::DisputeOpened }
    }

    /// Takes a delivery. One in order replaces the state on record; one out
    /// of order is refused and counted, and the state stays as it was, in
    /// both of its parts.
    pub fn apply(
        &mut self,
        delivery: DisputeState,
        failures: &mut DisputeValidationFailureCounter,
    ) -> (result: Result<(), WebhooksFlowError>)
        ensures
            *final(self) == state_after_delivery(*old(self), delivery),
            result is Ok <==> transition_valid(
                old(self).stage,
                old(self).status,
                delivery.stage,
                delivery.status,
            ),
            result is Err ==> result->Err_0 == WebhooksFlowError::DisputeWebhookValidationFailed,
            result is Err ==> *final(self) == *old(self),
            result is Ok ==> final(failures)@ == old(failures)@,
            result is Err ==> final(failures)@ == DisputeValidationFailureCounter::after_add(
                old(failures)@,
                1,
            ),
    {
        match validate_dispute_stage_and_dispute_status(
            self.stage,
            self.status,
            delivery.stage,
            delivery.status,
            failures,
        ) {
            Ok(()) => {
                self.stage = delivery.stage;
                self.status = delivery.status;
                Ok(())
            },
            Err(error) => Err(error),
        }
    }
}

/// A delivery that arrives twice does what it did the first time and
/// nothing more.
pub proof fn lemma_duplicate_delivery_changes_nothing(state: DisputeState, delivery: DisputeState)
    ensures
        state_after_delivery(state_after_delivery(state, delivery), delivery)
            == state_after_delivery(state, delivery),
{
}

/// Whatever deliveries arrive, in whatever order, the stage on record never
/// goes back.
pub proof fn lemma_stage_on_record_never_goes_back(
    state: DisputeState,
    deliveries: Seq<DisputeState>,
)
    ensures
        stage_rank(state.stage) <= stage_rank(state_after_deliveries(state, deliveries).stage),
    decreases deliveries.len(),
{
    if deliveries.len() > 0 {
        lemma_stage_on_record_never_goes_back(state, deliveries.drop_last());
    }
}

/// A stale delivery does no harm: once a dispute has reached a later stage,
/// or a final status, a delivery of an earlier stage, or of another status
/// at the same stage, leaves the record as it is.
pub proof fn lemma_stale_delivery_is_dropped(state: DisputeState, delivery: DisputeState)
    requires
        stage_rank(delivery.stage) < stage_rank(state.stage) || (delivery.stage == state.stage
            && state.status != DisputeStatus::DisputeOpened && state.status
            != DisputeStatus::DisputeChallenged && delivery.status != state.status),
    ensures
        state_after_delivery(state, delivery) == state,
{
}

} // verus!

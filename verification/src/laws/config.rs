//! Laws on the settings of the room limiter.
use vstd::prelude::*;
use crate::admission::PrefillAdmission;
use crate::config::{duration_nanos, EnvReading, PrefillAdmissionConfig};
use crate::router::PDRouter;
use crate::text::{decimal, digit_char, quoted, trimmed, unsigned_value};

verus! {

/// Whether a setting is given: there, and more than white space.
pub open spec fn is_set(setting: Option<&str>) -> bool {
    setting is Some && trimmed(setting->0@).len() > 0
}

/// The number that a setting writes, white space around it aside.
pub open spec fn number_in(setting: Option<&str>, max: nat) -> Option<nat> {
    unsigned_value(trimmed(setting->0@), max)
}

/// Whether a result is a refusal with a message.
pub open spec fn refuses(
    r: Result<Option<PrefillAdmissionConfig>, String>,
    message: Seq<char>,
) -> bool {
    r is Err && r->Err_0@ == message
}

/// A refused setting is named, with the kind that it must be and what it is.
pub proof fn law_refused_settings_are_named(name: &str, kind: &str, shown: &str, r: String)
    requires
        call_ensures(PrefillAdmissionConfig::refused_setting, (name, kind, shown), r),
    ensures
        r@ == name@ + " must be a "@ + kind@ + ", got "@ + shown@,
{
}

/// A setting is read as the number that it writes, and refused where it writes none.
pub proof fn law_settings_are_read_as_numbers(name: &str, raw: &str, r: Result<usize, String>)
    requires
        call_ensures(PrefillAdmissionConfig::parse_usize, (name, raw), r),
    ensures
        r is Ok <==> unsigned_value(trimmed(raw@), usize::MAX as nat) is Some,
        r is Ok ==> unsigned_value(trimmed(raw@), usize::MAX as nat) == Some(r->Ok_0 as nat),
        r is Err ==> r->Err_0@ == name@ + " must be a non-negative integer, got "@ + quoted(raw@),
{
    lemma_non_negative(name@, quoted(raw@));
}

proof fn lemma_non_negative(name: Seq<char>, shown: Seq<char>)
    ensures
        crate::config::refused_text(name, "non-negative integer"@, shown) == name
            + " must be a non-negative integer, got "@ + shown,
        crate::config::refused_text(name, "positive integer"@, shown) == name
            + " must be a positive integer, got "@ + shown,
{
    reveal_strlit(" must be a non-negative integer, got ");
    reveal_strlit(" must be a positive integer, got ");
    reveal_strlit(" must be a ");
    reveal_strlit(", got ");
    reveal_strlit("non-negative integer");
    reveal_strlit("positive integer");
    assert(" must be a "@ + "non-negative integer"@ + ", got "@
        =~= " must be a non-negative integer, got "@);
    assert(" must be a "@ + "positive integer"@ + ", got "@
        =~= " must be a positive integer, got "@);
    assert(crate::config::refused_text(name, "non-negative integer"@, shown) =~= name + (
    " must be a "@ + "non-negative integer"@ + ", got "@) + shown);
    assert(crate::config::refused_text(name, "positive integer"@, shown) =~= name + (" must be a "@
        + "positive integer"@ + ", got "@) + shown);
}

proof fn lemma_largest()
    ensures
        decimal(4_294_967_295) == "4294967295"@,
{
    reveal_strlit("4294967295");
    reveal_with_fuel(decimal, 11);
    assert(decimal(4) == seq![digit_char(4)]);
    assert(decimal(4_294_967_295) =~= "4294967295"@);
}

/// The limiter is off without a room limit or with a limit of zero, whatever the other
/// settings are.
pub proof fn law_without_a_room_limit_the_limiter_is_off(
    max_rooms: Option<&str>,
    queue_size: Option<&str>,
    queue_timeout_secs: Option<&str>,
    r: Result<Option<PrefillAdmissionConfig>, String>,
)
    requires
        call_ensures(
            PrefillAdmissionConfig::from_values,
            (max_rooms, queue_size, queue_timeout_secs),
            r,
        ),
    ensures
        r is Ok && r->Ok_0 is None <==> !is_set(max_rooms) || number_in(max_rooms, usize::MAX as nat)
            == Some(0nat),
{
}

/// A limiter that is on has the room limit, the queue size and the timeout that are
/// set, or 32768 places and 28800 seconds where those two are not.
pub proof fn law_a_limiter_has_the_settings_given(
    max_rooms: Option<&str>,
    queue_size: Option<&str>,
    queue_timeout_secs: Option<&str>,
    r: Result<Option<PrefillAdmissionConfig>, String>,
)
    requires
        call_ensures(
            PrefillAdmissionConfig::from_values,
            (max_rooms, queue_size, queue_timeout_secs),
            r,
        ),
        r is Ok,
        r->Ok_0 is Some,
    ensures
        ({
            let config = r->Ok_0->0;
            let nanos = duration_nanos(config.queue_timeout);
            &&& is_set(max_rooms)
            &&& number_in(max_rooms, usize::MAX as nat) == Some(config.max_rooms_per_worker as nat)
            &&& 1 <= config.max_rooms_per_worker <= 4_294_967_295
            &&& is_set(queue_size) ==> number_in(queue_size, usize::MAX as nat) == Some(
                config.queue_size_per_worker as nat,
            )
            &&& !is_set(queue_size) ==> config.queue_size_per_worker == 32_768
            &&& is_set(queue_timeout_secs) ==> {
                &&& number_in(queue_timeout_secs, u64::MAX as nat) is Some
                &&& number_in(queue_timeout_secs, u64::MAX as nat)->0 >= 1
                &&& nanos == number_in(queue_timeout_secs, u64::MAX as nat)->0 * 1_000_000_000
            }
            &&& !is_set(queue_timeout_secs) ==> nanos == 28_800_000_000_000
        }),
{
}

/// Settings are refused if and only if the limiter would be on and one of them is no
/// number, too large or a timeout of zero; the first such one is named.
pub proof fn law_bad_settings_are_refused(
    max_rooms: Option<&str>,
    queue_size: Option<&str>,
    queue_timeout_secs: Option<&str>,
    r: Result<Option<PrefillAdmissionConfig>, String>,
)
    requires
        call_ensures(
            PrefillAdmissionConfig::from_values,
            (max_rooms, queue_size, queue_timeout_secs),
            r,
        ),
    ensures
        ({
            let rooms = number_in(max_rooms, usize::MAX as nat);
            let no_size = is_set(queue_size) && number_in(queue_size, usize::MAX as nat) is None;
            let no_secs = is_set(queue_timeout_secs) && number_in(
                queue_timeout_secs,
                u64::MAX as nat,
            ) is None;
            let zero_secs = is_set(queue_timeout_secs) && number_in(
                queue_timeout_secs,
                u64::MAX as nat,
            ) == Some(0nat);
            let is_on = is_set(max_rooms) && rooms is Some && 1 <= rooms->0 <= 4_294_967_295;
            &&& is_set(max_rooms) && rooms is None ==> refuses(
                r,
                "SGLANG_PD_MAX_PREFILL_ROOMS_PER_WORKER"@
                    + " must be a non-negative integer, got "@ + quoted(trimmed(max_rooms->0@)),
            )
            &&& is_set(max_rooms) && rooms is Some && rooms->0 > 4_294_967_295 ==> refuses(
                r,
                "SGLANG_PD_MAX_PREFILL_ROOMS_PER_WORKER"@ + " must not exceed "@ + "4294967295"@,
            )
            &&& is_on && no_size ==> refuses(
                r,
                "SGLANG_PD_PREFILL_ROOM_QUEUE_SIZE"@ + " must be a non-negative integer, got "@
                    + quoted(queue_size->0@),
            )
            &&& is_on && !no_size && no_secs ==> refuses(
                r,
                "SGLANG_PD_PREFILL_ROOM_QUEUE_TIMEOUT_SECS"@ + " must be a positive integer, got "@
                    + quoted(queue_timeout_secs->0@),
            )
            &&& is_on && !no_size && zero_secs ==> refuses(
                r,
                "SGLANG_PD_PREFILL_ROOM_QUEUE_TIMEOUT_SECS"@ + " must be greater than zero"@,
            )
            &&& is_on && !no_size && !no_secs && !zero_secs ==> r is Ok && r->Ok_0 is Some
        }),
{
    lemma_largest();
    lemma_non_negative(
        "SGLANG_PD_MAX_PREFILL_ROOMS_PER_WORKER"@,
        quoted(trimmed(max_rooms->0@)),
    );
    lemma_non_negative("SGLANG_PD_PREFILL_ROOM_QUEUE_SIZE"@, quoted(queue_size->0@));
    lemma_non_negative(
        "SGLANG_PD_PREFILL_ROOM_QUEUE_TIMEOUT_SECS"@,
        quoted(queue_timeout_secs->0@),
    );
}

/// A variable is read as its text, as nothing where it is not set, and refused by its
/// name where it is not Unicode.
pub proof fn law_variables_are_read_as_they_are(
    name: &str,
    reading: EnvReading,
    r: Result<Option<String>, String>,
)
    requires
        call_ensures(PrefillAdmissionConfig::optional_env, (name, reading), r),
    ensures
        reading is Present ==> r is Ok && r->Ok_0 is Some && r->Ok_0->0@ == reading->Present_0@,
        reading is NotPresent ==> r is Ok && r->Ok_0 is None,
        reading is NotUnicode ==> r is Err && r->Err_0@ == name@ + " contains non-Unicode data"@,
{
}

/// Whether a setting is what a reading gave.
pub open spec fn is_read(reading: EnvReading, setting: Option<&str>) -> bool {
    &&& reading is Present <==> setting is Some
    &&& reading is Present ==> setting->0@ == reading->Present_0@
}

/// Whether two results of reading settings are the same.
pub open spec fn are_same(
    a: Result<Option<PrefillAdmissionConfig>, String>,
    b: Result<Option<PrefillAdmissionConfig>, String>,
) -> bool {
    &&& a is Ok <==> b is Ok
    &&& a is Err ==> a->Err_0@ == b->Err_0@
    &&& a is Ok ==> (a->Ok_0 is Some <==> b->Ok_0 is Some)
    &&& a is Ok && a->Ok_0 is Some ==> {
        &&& a->Ok_0->0.max_rooms_per_worker == b->Ok_0->0.max_rooms_per_worker
        &&& a->Ok_0->0.queue_size_per_worker == b->Ok_0->0.queue_size_per_worker
        &&& duration_nanos(a->Ok_0->0.queue_timeout) == duration_nanos(b->Ok_0->0.queue_timeout)
    }
}

/// The environment gives what its texts give as settings.
pub proof fn law_the_environment_gives_what_its_texts_give(
    readings: (EnvReading, EnvReading, EnvReading),
    settings: (Option<&str>, Option<&str>, Option<&str>),
    r: Result<Option<PrefillAdmissionConfig>, String>,
    from_texts: Result<Option<PrefillAdmissionConfig>, String>,
)
    requires
        call_ensures(PrefillAdmissionConfig::from_env, readings, r),
        call_ensures(PrefillAdmissionConfig::from_values, settings, from_texts),
        readings.0 !is NotUnicode && readings.1 !is NotUnicode && readings.2 !is NotUnicode,
        is_read(readings.0, settings.0),
        is_read(readings.1, settings.1),
        is_read(readings.2, settings.2),
    ensures
        are_same(r, from_texts),
{
}

/// What is not Unicode is refused, and the first such variable is named.
pub proof fn law_what_is_not_unicode_is_refused(
    readings: (EnvReading, EnvReading, EnvReading),
    r: Result<Option<PrefillAdmissionConfig>, String>,
)
    requires
        call_ensures(PrefillAdmissionConfig::from_env, readings, r),
    ensures
        readings.0 is NotUnicode ==> refuses(
            r,
            "SGLANG_PD_MAX_PREFILL_ROOMS_PER_WORKER"@ + " contains non-Unicode data"@,
        ),
        readings.0 !is NotUnicode && readings.1 is NotUnicode ==> refuses(
            r,
            "SGLANG_PD_PREFILL_ROOM_QUEUE_SIZE"@ + " contains non-Unicode data"@,
        ),
        readings.0 !is NotUnicode && readings.1 !is NotUnicode && readings.2 is NotUnicode
            ==> refuses(
            r,
            "SGLANG_PD_PREFILL_ROOM_QUEUE_TIMEOUT_SECS"@ + " contains non-Unicode data"@,
        ),
{
}

/// The settings of an admission that could be made, or why none could be.
pub open spec fn settings_of(r: Result<PrefillAdmission, String>) -> Result<
    Option<PrefillAdmissionConfig>,
    String,
> {
    match r {
        Ok(admission) => Ok(admission.settings()),
        Err(message) => Err(message),
    }
}

/// Admission is made by the settings that the environment gives.
pub proof fn law_admission_goes_by_the_environment(
    readings: (EnvReading, EnvReading, EnvReading),
    r: Result<PrefillAdmission, String>,
    settings: Result<Option<PrefillAdmissionConfig>, String>,
)
    requires
        call_ensures(PrefillAdmission::from_env, readings, r),
        call_ensures(PrefillAdmissionConfig::from_env, readings, settings),
    ensures
        are_same(settings_of(r), settings),
        r is Ok ==> r->Ok_0.wf() && forall|worker: Seq<char>|
            !#[trigger] r->Ok_0@.dom().contains(worker),
{
}

/// A router is made with its key, its mode, and the admission that the environment
/// gives; and its kind is `pd`.
pub proof fn law_a_router_goes_by_the_environment(
    api_key: Option<String>,
    enable_igw: bool,
    readings: (EnvReading, EnvReading, EnvReading),
    r: Result<PDRouter, String>,
    settings: Result<Option<PrefillAdmissionConfig>, String>,
    kind: &'static str,
)
    requires
        call_ensures(
            PDRouter::new,
            (api_key, enable_igw, readings.0, readings.1, readings.2),
            r,
        ),
        call_ensures(PrefillAdmissionConfig::from_env, readings, settings),
        call_ensures(PDRouter::router_type, (), kind),
    ensures
        r is Ok <==> settings is Ok,
        r is Err ==> r->Err_0@ == settings->Err_0@,
        r is Ok ==> {
            &&& r->Ok_0.api_key == api_key
            &&& r->Ok_0.enable_igw == enable_igw
            &&& are_same(Ok(r->Ok_0.prefill_admission.settings()), settings)
            &&& r->Ok_0.prefill_admission.wf()
            &&& forall|worker: Seq<char>|
                !#[trigger] r->Ok_0.prefill_admission@.dom().contains(worker)
        },
        kind@ == "pd"@,
{
}

} // verus!

//! Settings of the prefill room limiter.
use vstd::prelude::*;
use std::time::Duration;
use crate::text::{
    cat2, cat3, cat5, decimal, decimal_text, lemma_trimmed_twice, parse_as_u64, parse_as_usize, quote,
    quoted, trim, trimmed, unsigned_value,
};

verus! {

/// The variable that limits the rooms of a prefill worker.
pub const MAX_PREFILL_ROOMS_ENV: &'static str = "SGLANG_PD_MAX_PREFILL_ROOMS_PER_WORKER";

/// The variable that limits the requests that wait for a room of a prefill worker.
pub const PREFILL_ROOM_QUEUE_SIZE_ENV: &'static str = "SGLANG_PD_PREFILL_ROOM_QUEUE_SIZE";

/// The variable that limits the seconds that a request waits for a room.
pub const PREFILL_ROOM_QUEUE_TIMEOUT_ENV: &'static str = "SGLANG_PD_PREFILL_ROOM_QUEUE_TIMEOUT_SECS";

/// The queue size where none is set.
pub const DEFAULT_PREFILL_ROOM_QUEUE_SIZE: usize = 32_768;

/// The seconds that a request waits where no number is set.
pub const DEFAULT_PREFILL_ROOM_QUEUE_TIMEOUT_SECS: u64 = 28_800;

/// The nanoseconds that a `std::time::Duration` spans.
pub uninterp spec fn duration_nanos(duration: Duration) -> nat;

/// `std::time::Duration::from_secs`: a span of whole seconds.
pub assume_specification[ Duration::from_secs ](secs: u64) -> (r: Duration)
    ensures
        duration_nanos(r) == secs * 1_000_000_000,
;

/// What reading an environment variable gave.
#[derive(Debug)]
pub enum EnvReading {
    /// The variable is set to this text.
    Present(String),
    /// The variable is not set.
    NotPresent,
    /// The variable is set to something that is not Unicode.
    NotUnicode,
}

/// The reading of an environment variable, as a value.
pub enum EnvText {
    Present(Seq<char>),
    NotPresent,
    NotUnicode,
}

impl View for EnvReading {
    type V = EnvText;

    open spec fn view(&self) -> EnvText {
        match self {
            EnvReading::Present(text) => EnvText::Present(text@),
            EnvReading::NotPresent => EnvText::NotPresent,
            EnvReading::NotUnicode => EnvText::NotUnicode,
        }
    }
}

/// Settings of the room limiter of prefill workers.
#[derive(Clone, Copy, Debug, PartialEq, Eq)]
pub struct PrefillAdmissionConfig {
    pub max_rooms_per_worker: usize,
    pub queue_size_per_worker: usize,
    pub queue_timeout: Duration,
}

/// What a set of settings comes to.
pub enum ConfigOutcome {
    /// The room limiter is off.
    Disabled,
    /// The room limiter is on, with these settings.
    Enabled { max_rooms: nat, queue_size: nat, timeout_secs: nat },
    /// A setting is refused, with this message.
    Refused(Seq<char>),
}

/// The text of an optional setting.
pub open spec fn text_of(setting: Option<&str>) -> Option<Seq<char>> {
    match setting {
        Some(text) => Some(text@),
        None => None,
    }
}

/// Whether a setting is given: present, and more than white space.
pub open spec fn is_given(setting: Option<Seq<char>>) -> bool {
    setting is Some && trimmed(setting->0).len() > 0
}

/// The message on a setting that is not of the kind it must be, with the
/// setting given as it is shown.
pub open spec fn refused_text(name: Seq<char>, kind: Seq<char>, shown: Seq<char>) -> Seq<char> {
    name + " must be a "@ + kind + ", got "@ + shown
}

/// The message on a setting that is no non-negative integer.
pub open spec fn not_an_integer(name: Seq<char>, raw: Seq<char>) -> Seq<char> {
    refused_text(name, "non-negative integer"@, quoted(raw))
}

/// What a room limit, once it is known, comes to together with the queue settings.
pub open spec fn queue_outcome(
    max_rooms: nat,
    queue_size: Option<Seq<char>>,
    queue_timeout_secs: Option<Seq<char>>,
) -> ConfigOutcome {
    let size = if is_given(queue_size) {
        unsigned_value(trimmed(queue_size->0), usize::MAX as nat)
    } else {
        Some(DEFAULT_PREFILL_ROOM_QUEUE_SIZE as nat)
    };
    let secs = if is_given(queue_timeout_secs) {
        unsigned_value(trimmed(queue_timeout_secs->0), u64::MAX as nat)
    } else {
        Some(DEFAULT_PREFILL_ROOM_QUEUE_TIMEOUT_SECS as nat)
    };
    if size is None {
        ConfigOutcome::Refused(not_an_integer(PREFILL_ROOM_QUEUE_SIZE_ENV@, queue_size->0))
    } else if secs is None {
        ConfigOutcome::Refused(
            refused_text(
                PREFILL_ROOM_QUEUE_TIMEOUT_ENV@,
                "positive integer"@,
                quoted(queue_timeout_secs->0),
            ),
        )
    } else if secs->0 == 0 {
        ConfigOutcome::Refused(PREFILL_ROOM_QUEUE_TIMEOUT_ENV@ + " must be greater than zero"@)
    } else {
        ConfigOutcome::Enabled { max_rooms, queue_size: size->0, timeout_secs: secs->0 }
    }
}

/// What the three settings come to.
///
/// Without a room limit, or with a room limit of zero, the limiter is off and
/// the queue settings are not looked at.
pub open spec fn config_outcome(
    max_rooms: Option<Seq<char>>,
    queue_size: Option<Seq<char>>,
    queue_timeout_secs: Option<Seq<char>>,
) -> ConfigOutcome {
    if !is_given(max_rooms) {
        ConfigOutcome::Disabled
    } else {
        match unsigned_value(trimmed(max_rooms->0), usize::MAX as nat) {
            None => ConfigOutcome::Refused(
                not_an_integer(MAX_PREFILL_ROOMS_ENV@, trimmed(max_rooms->0)),
            ),
            Some(rooms) => if rooms == 0 {
                ConfigOutcome::Disabled
            } else if rooms > u32::MAX {
                ConfigOutcome::Refused(
                    MAX_PREFILL_ROOMS_ENV@ + " must not exceed "@ + decimal(u32::MAX as nat),
                )
            } else {
                queue_outcome(rooms, queue_size, queue_timeout_secs)
            },
        }
    }
}

/// What three readings of the environment come to: the first one that is not
/// Unicode is refused, in the order room limit, queue size, timeout.
pub open spec fn env_outcome(
    max_rooms: EnvText,
    queue_size: EnvText,
    queue_timeout: EnvText,
) -> ConfigOutcome {
    if max_rooms is NotUnicode {
        ConfigOutcome::Refused(MAX_PREFILL_ROOMS_ENV@ + " contains non-Unicode data"@)
    } else if queue_size is NotUnicode {
        ConfigOutcome::Refused(PREFILL_ROOM_QUEUE_SIZE_ENV@ + " contains non-Unicode data"@)
    } else if queue_timeout is NotUnicode {
        ConfigOutcome::Refused(PREFILL_ROOM_QUEUE_TIMEOUT_ENV@ + " contains non-Unicode data"@)
    } else {
        config_outcome(set_text(max_rooms), set_text(queue_size), set_text(queue_timeout))
    }
}

/// The text of a variable that is set.
pub open spec fn set_text(reading: EnvText) -> Option<Seq<char>> {
    match reading {
        EnvText::Present(text) => Some(text),
        _ => None,
    }
}

/// Whether the result of reading settings is the one that they come to.
pub open spec fn config_result_is(
    r: Result<Option<PrefillAdmissionConfig>, String>,
    outcome: ConfigOutcome,
) -> bool {
    match outcome {
        ConfigOutcome::Disabled => r is Ok && r->Ok_0 is None,
        ConfigOutcome::Enabled { max_rooms, queue_size, timeout_secs } => {
            &&& r is Ok
            &&& r->Ok_0 is Some
            &&& r->Ok_0->0.max_rooms_per_worker == max_rooms
            &&& r->Ok_0->0.queue_size_per_worker == queue_size
            &&& duration_nanos(r->Ok_0->0.queue_timeout) == timeout_secs * 1_000_000_000
        },
        ConfigOutcome::Refused(message) => r is Err && r->Err_0@ == message,
    }
}

impl PrefillAdmissionConfig {
    /// Whether the settings are such as the limiter can work with: at least one
    /// room, and no more than a `u32` counts.
    pub open spec fn wf(&self) -> bool {
        1 <= self.max_rooms_per_worker <= u32::MAX
    }

    /// Sorts out what reading a variable gave: its text, nothing, or a message
    /// where it is not Unicode.
    pub fn optional_env(name: &str, reading: EnvReading) -> (r: Result<Option<String>, String>)
        ensures
            match reading@ {
                EnvText::Present(text) => r is Ok && r->Ok_0 is Some && r->Ok_0->0@ == text,
                EnvText::NotPresent => r is Ok && r->Ok_0 is None,
                EnvText::NotUnicode => r is Err && r->Err_0@ == name@
                    + " contains non-Unicode data"@,
            },
    {
        match reading {
            EnvReading::Present(value) => Ok(Some(value)),
            EnvReading::NotPresent => Ok(None),
            EnvReading::NotUnicode => Err(cat2(name, " contains non-Unicode data")),
        }
    }

    /// The message on a setting that is not of the kind it must be.
    pub fn refused_setting(name: &str, kind: &str, shown: &str) -> (r: String)
        ensures
            r@ == refused_text(name@, kind@, shown@),
    {
        cat5(name, " must be a ", kind, ", got ", shown)
    }

    /// Reads a setting as a non-negative integer, white space around it aside.
    pub fn parse_usize(name: &str, raw: &str) -> (r: Result<usize, String>)
        ensures
            match unsigned_value(trimmed(raw@), usize::MAX as nat) {
                Some(n) => r is Ok && r->Ok_0 == n,
                None => r is Err && r->Err_0@ == not_an_integer(name@, raw@),
            },
    {
        match parse_as_usize(trim(raw)) {
            Some(n) => Ok(n),
            None => {
                let shown = quote(raw);
                Err(Self::refused_setting(name, "non-negative integer", shown.as_str()))
            },
        }
    }

    /// Reads the three settings of the room limiter.
    pub fn from_values(
        max_rooms: Option<&str>,
        queue_size: Option<&str>,
        queue_timeout_secs: Option<&str>,
    ) -> (r: Result<Option<Self>, String>)
        ensures
            config_result_is(
                r,
                config_outcome(
                    text_of(max_rooms),
                    text_of(queue_size),
                    text_of(queue_timeout_secs),
                ),
            ),
            r is Ok && r->Ok_0 is Some ==> r->Ok_0->0.wf(),
    {
        let given_rooms = match max_rooms {
            Some(raw) => trim(raw),
            None => {
                return Ok(None);
            },
        };
        if given_rooms.is_empty() {
            return Ok(None);
        }
        proof {
            lemma_trimmed_twice(text_of(max_rooms)->0);
        }
        let max_rooms_per_worker: usize = match Self::parse_usize(
            MAX_PREFILL_ROOMS_ENV,
            given_rooms,
        ) {
            Ok(n) => n,
            Err(message) => {
                return Err(message);
            },
        };
        if max_rooms_per_worker == 0 {
            return Ok(None);
        }
        if max_rooms_per_worker > u32::MAX as usize {
            let limit = decimal_text(u32::MAX as u64);
            return Err(cat3(MAX_PREFILL_ROOMS_ENV, " must not exceed ", limit.as_str()));
        }
        let queue_size_per_worker: usize = match queue_size {
            Some(raw) if !trim(raw).is_empty() => match Self::parse_usize(
                PREFILL_ROOM_QUEUE_SIZE_ENV,
                raw,
            ) {
                Ok(n) => n,
                Err(message) => {
                    return Err(message);
                },
            },
            _ => DEFAULT_PREFILL_ROOM_QUEUE_SIZE,
        };
        let timeout_secs: u64 = match queue_timeout_secs {
            Some(raw) if !trim(raw).is_empty() => match parse_as_u64(trim(raw)) {
                Some(n) => n,
                None => {
                    let shown = quote(raw);
                    return Err(
                        Self::refused_setting(
                            PREFILL_ROOM_QUEUE_TIMEOUT_ENV,
                            "positive integer",
                            shown.as_str(),
                        ),
                    );
                },
            },
            _ => DEFAULT_PREFILL_ROOM_QUEUE_TIMEOUT_SECS,
        };
        if timeout_secs == 0 {
            return Err(cat2(PREFILL_ROOM_QUEUE_TIMEOUT_ENV, " must be greater than zero"));
        }
        Ok(
            Some(
                PrefillAdmissionConfig {
                    max_rooms_per_worker,
                    queue_size_per_worker,
                    queue_timeout: Duration::from_secs(timeout_secs),
                },
            ),
        )
    }

    /// Reads the settings of the room limiter from what reading the three
    /// variables of the environment gave.
    pub fn from_env(
        max_rooms: EnvReading,
        queue_size: EnvReading,
        queue_timeout: EnvReading,
    ) -> (r: Result<Option<Self>, String>)
        ensures
            config_result_is(r, env_outcome(max_rooms@, queue_size@, queue_timeout@)),
            r is Ok && r->Ok_0 is Some ==> r->Ok_0->0.wf(),
    {
        let max_rooms = match Self::optional_env(MAX_PREFILL_ROOMS_ENV, max_rooms) {
            Ok(value) => value,
            Err(message) => {
                return Err(message);
            },
        };
        let queue_size = match Self::optional_env(PREFILL_ROOM_QUEUE_SIZE_ENV, queue_size) {
            Ok(value) => value,
            Err(message) => {
                return Err(message);
            },
        };
        let queue_timeout = match Self::optional_env(PREFILL_ROOM_QUEUE_TIMEOUT_ENV, queue_timeout) {
            Ok(value) => value,
            Err(message) => {
                return Err(message);
            },
        };
        Self::from_values(as_text(&max_rooms), as_text(&queue_size), as_text(&queue_timeout))
    }
}

/// An optional text, borrowed.
pub(crate) fn as_text(value: &Option<String>) -> (r: Option<&str>)
    ensures
        text_of(r) == (match value {
            Some(text) => Some(text@),
            None => None,
        }),
{
    match value {
        Some(text) => Some(text.as_str()),
        None => None,
    }
}

/// Where no room limit is set, or a limit of zero, the queue settings are
/// inert: they may be anything, malformed too.
pub proof fn law_queue_settings_are_inert_when_disabled(
    max_rooms: Option<Seq<char>>,
    queue_size: Option<Seq<char>>,
    queue_timeout_secs: Option<Seq<char>>,
)
    requires
        !is_given(max_rooms) || unsigned_value(trimmed(max_rooms->0), usize::MAX as nat) == Some(
            0nat,
        ),
    ensures
        config_outcome(max_rooms, queue_size, queue_timeout_secs) is Disabled,
{
}

/// Settings that turn the limiter on give it at least one room, at most as many
/// as a `u32` counts, and a positive timeout.
pub proof fn law_enabled_settings_are_usable(
    max_rooms: Option<Seq<char>>,
    queue_size: Option<Seq<char>>,
    queue_timeout_secs: Option<Seq<char>>,
)
    ensures
        config_outcome(max_rooms, queue_size, queue_timeout_secs) matches ConfigOutcome::Enabled {
            max_rooms: rooms,
            queue_size: size,
            timeout_secs: secs,
        } ==> 1 <= rooms <= u32::MAX && size <= usize::MAX && 1 <= secs <= u64::MAX,
{
}

/// White space around the room limit changes nothing.
pub proof fn law_white_space_around_the_room_limit_is_ignored(
    max_rooms: Seq<char>,
    queue_size: Option<Seq<char>>,
    queue_timeout_secs: Option<Seq<char>>,
)
    ensures
        config_outcome(Some(max_rooms), queue_size, queue_timeout_secs) == config_outcome(
            Some(trimmed(max_rooms)),
            queue_size,
            queue_timeout_secs,
        ),
{
    lemma_trimmed_twice(max_rooms);
}

} // verus!

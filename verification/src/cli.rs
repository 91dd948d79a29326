//! The settings of a run and what follows from them: the commands that
//! configure the instrument and the description for the file header.

use vstd::prelude::*;
use vstd::string::StringExecFns;
use crate::text::{join, lines_view, pairs_view, push_line, push_pair};

verus! {

/// The version that the instrument shows while it is being logged.
pub const PKG_VERSION: &'static str = "0.1.0";

/// The settings of a run.
#[derive(Clone, Debug, PartialEq, Eq)]
pub struct Cli {
    /// Time between two samples, in nanoseconds.
    pub sample_period: u64,
    /// Number of samples to take; `None` for no limit.
    pub num_samples: Option<u32>,
    /// Switch the instrument's display off while logging.
    pub display_off: bool,
    /// Show a text on the instrument while logging; the inner `None` asks
    /// for the default text.
    pub display_text: Option<Option<String>>,
    /// Drop late samples and samples with a high latency.
    pub drop_slow_samples: bool,
    /// Measure voltage, in this range.
    pub voltage: Option<String>,
    /// Measure current, in this range.
    pub current: Option<String>,
    /// Direct current or voltage (the default).
    pub dc: bool,
    /// Alternating current or voltage.
    pub ac: bool,
    /// Measure resistance, in this range.
    pub resistance: Option<String>,
    /// Two-wire resistance measurement (the default).
    pub two: bool,
    /// Four-wire resistance measurement.
    pub four: bool,
    /// Resolution, in the unit of the measurement.
    pub resolution: Option<String>,
    /// Integration time in power line cycles.
    pub nplc: Option<String>,
    /// A message for the file header.
    pub message: Option<String>,
    /// A file whose content is the message for the file header.
    pub message_from: Option<String>,
    /// Beep when logging has finished.
    pub beep: bool,
    /// Reset the instrument before logging.
    pub reset: bool,
    /// Network port of the instrument.
    pub port: u16,
    /// Echo the communication with the instrument.
    pub debug: bool,
    /// Network name or address of the instrument.
    pub host: String,
    /// File to write to; `None` for standard output.
    pub output: Option<String>,
}

/// A setting that no run can be made with.
#[derive(Clone, Copy, Debug, PartialEq, Eq, Structural)]
pub enum InvalidSetting {
    /// The time between two samples is zero.
    ZeroInterval,
    /// The number of samples is zero.
    ZeroSamples,
}

/// The text of an optional setting.
pub open spec fn text_view(text: Option<String>) -> Option<Seq<char>> {
    match text {
        Some(s) => Some(s@),
        None => None,
    }
}

/// The text of a borrowed optional setting.
fn as_text(text: &Option<String>) -> (borrowed: Option<&str>)
    ensures
        match borrowed {
            Some(s) => text_view(*text) == Some(s@),
            None => text is None,
        },
{
    match text {
        Some(s) => Some(s.as_str()),
        None => None,
    }
}

impl Cli {
    /// `AC` where alternating current was asked for, else `DC`.
    pub open spec fn coupling(&self) -> Seq<char> {
        if self.ac {
            "AC"@
        } else {
            "DC"@
        }
    }

    /// `FRES` where four-wire measurement was asked for, else `RES`.
    pub open spec fn wiring(&self) -> Seq<char> {
        if self.four {
            "FRES"@
        } else {
            "RES"@
        }
    }

    /// The instrument's name for the measurement function: voltage before
    /// current before resistance, where several were asked for.
    pub open spec fn function(&self) -> Option<Seq<char>> {
        if self.voltage is Some {
            Some("VOLT:"@ + self.coupling())
        } else if self.current is Some {
            Some("CURR:"@ + self.coupling())
        } else if self.resistance is Some {
            Some(self.wiring())
        } else {
            None
        }
    }

    /// The range of the measurement function.
    pub open spec fn range(&self) -> Option<Seq<char>> {
        if self.voltage is Some {
            text_view(self.voltage)
        } else if self.current is Some {
            text_view(self.current)
        } else {
            text_view(self.resistance)
        }
    }

    /// The text for the instrument's display.
    pub open spec fn shown_text(&self) -> Seq<char> {
        match self.display_text {
            Some(Some(text)) => text@,
            _ => "DMM Logger ("@ + PKG_VERSION@ + ")"@,
        }
    }

    /// The commands that choose the measurement function with its range,
    /// then its resolution and its integration time.
    pub open spec fn function_commands(&self) -> Seq<Seq<char>> {
        match self.function() {
            Some(function) => seq!["CONF:"@ + function + " "@ + self.range()->0] + (
            match self.resolution {
                Some(resolution) => seq![function + ":RES "@ + resolution@],
                None => seq![],
            }) + (match self.nplc {
                Some(nplc) => seq![function + ":NPLC "@ + nplc@],
                None => seq![],
            }),
            None => seq![],
        }
    }

    /// The commands that set up the display.
    pub open spec fn display_commands(&self) -> Seq<Seq<char>> {
        (if self.display_off || self.display_text is Some {
            seq!["DISP OFF"@]
        } else {
            seq![]
        }) + (if self.display_text is Some {
            seq!["DISP:TEXT \""@ + self.shown_text() + "\""@]
        } else {
            seq![]
        })
    }

    /// The commands that configure the instrument: the measurement function
    /// first, then the display.
    pub open spec fn configuration(&self) -> Seq<Seq<char>> {
        self.function_commands() + self.display_commands()
    }

    /// The commands that undo the configuration: clear the text, switch the
    /// display on again, beep.
    pub open spec fn unconfiguration(&self) -> Seq<Seq<char>> {
        (if self.display_text is Some {
            seq!["DISP:TEXT:CLE"@]
        } else {
            seq![]
        }) + (if self.display_off || self.display_text is Some {
            seq!["DISP ON"@]
        } else {
            seq![]
        }) + (if self.beep {
            seq!["SYST:BEEP"@]
        } else {
            seq![]
        })
    }

    /// What is measured, for the description: voltage before current.
    pub open spec fn described_function(&self) -> Seq<(Seq<char>, Seq<char>)> {
        (match (self.voltage, self.current) {
            (Some(range), _) => seq![(self.coupling() + "-Voltage"@, range@ + " Volts"@)],
            (None, Some(range)) => seq![(self.coupling() + "-Current"@, range@ + " Amperes"@)],
            (None, None) => seq![],
        }) + (match self.resistance {
            Some(range) => seq![
                (
                    "Resistance ("@ + (if self.four {
                        "4-wire"@
                    } else {
                        "2-wire"@
                    }) + ")"@,
                    range@ + " Ohms"@,
                ),
            ],
            None => seq![],
        })
    }

    /// The switches of the run, for the description.
    pub open spec fn described_switches(&self) -> Seq<(Seq<char>, Seq<char>)> {
        (if self.drop_slow_samples {
            seq![("Drop slow samples"@, "ON"@)]
        } else {
            seq![]
        }) + (if self.display_off {
            seq![("Display"@, "OFF"@)]
        } else if self.display_text is Some {
            seq![("Display"@, "Text"@)]
        } else {
            seq![]
        })
    }

    /// Resolution, integration time and reset, for the description.
    pub open spec fn described_details(&self) -> Seq<(Seq<char>, Seq<char>)> {
        (match self.resolution {
            Some(resolution) => seq![("Resolution"@, resolution@)],
            None => seq![],
        }) + (match self.nplc {
            Some(nplc) => seq![("NPLC"@, nplc@)],
            None => seq![],
        }) + (if self.reset {
            seq![("Reset instrument"@, "ON"@)]
        } else {
            seq![]
        })
    }

    /// The settings as labelled values, for the header of the output:
    /// interval and rate as the caller wrote them, then the switches, what
    /// is measured, and the details.
    pub open spec fn description(&self, interval: Seq<char>, rate: Seq<char>) -> Seq<
        (Seq<char>, Seq<char>),
    > {
        seq![("Sampling interval"@, interval + " seconds"@), ("Sample rate"@, rate + " Hz"@)]
            + self.described_switches() + self.described_function() + self.described_details()
    }

    /// Rejects settings that no run can be made with: the interval is
    /// looked at first.
    pub fn validate(&self) -> (checked: Result<&Self, InvalidSetting>)
        ensures
            match checked {
                Ok(same) => *same == *self && self.sample_period != 0 && self.num_samples
                    != Some(0u32),
                Err(InvalidSetting::ZeroInterval) => self.sample_period == 0,
                Err(InvalidSetting::ZeroSamples) => self.sample_period != 0 && self.num_samples
                    == Some(0u32),
            },
    {
        if self.sample_period == 0 {
            return Err(InvalidSetting::ZeroInterval);
        }
        match self.num_samples {
            Some(0) => Err(InvalidSetting::ZeroSamples),
            _ => Ok(self),
        }
    }

    pub fn drop_slow_samples(&self) -> (flag: bool)
        ensures
            flag == self.drop_slow_samples,
    {
        self.drop_slow_samples
    }

    pub fn reset(&self) -> (flag: bool)
        ensures
            flag == self.reset,
    {
        self.reset
    }

    pub fn debug(&self) -> (flag: bool)
        ensures
            flag == self.debug,
    {
        self.debug
    }

    pub fn message(&self) -> (text: Option<&str>)
        ensures
            match text {
                Some(s) => text_view(self.message) == Some(s@),
                None => self.message is None,
            },
    {
        as_text(&self.message)
    }

    pub fn message_from(&self) -> (path: Option<&str>)
        ensures
            match path {
                Some(s) => text_view(self.message_from) == Some(s@),
                None => self.message_from is None,
            },
    {
        as_text(&self.message_from)
    }

    pub fn host(&self) -> (name: &str)
        ensures
            name@ == self.host@,
    {
        self.host.as_str()
    }

    pub fn port(&self) -> (port: u16)
        ensures
            port == self.port,
    {
        self.port
    }

    pub fn output(&self) -> (path: Option<&str>)
        ensures
            match path {
                Some(s) => text_view(self.output) == Some(s@),
                None => self.output is None,
            },
    {
        as_text(&self.output)
    }

    /// The time between two samples, in nanoseconds.
    pub fn sample_period(&self) -> (period: u64)
        ensures
            period == self.sample_period,
    {
        self.sample_period
    }

    /// The number of samples to take; without a limit, as many as the
    /// sequence counter can number.
    pub fn num_samples(&self) -> (count: u32)
        ensures
            count == (match self.num_samples {
                Some(n) => n,
                None => u32::MAX,
            }),
    {
        match self.num_samples {
            Some(n) => n,
            None => u32::MAX,
        }
    }

    /// The commands that configure the instrument for this run.
    pub fn configuration_commands(&self) -> (configs: Vec<String>)
        ensures
            lines_view(configs@) == self.configuration(),
    {
        let mut configs: Vec<String> = Vec::new();
        assert(lines_view(configs@) =~= Seq::<Seq<char>>::empty());
        let dc_ac = if self.ac {
            "AC"
        } else {
            "DC"
        };
        let res_fres = if self.four {
            "FRES"
        } else {
            "RES"
        };
        let chosen: Option<(String, &str)> = match (&self.voltage, &self.current, &self.resistance) {
            (Some(volts), _, _) => Some((join("VOLT:", dc_ac), volts.as_str())),
            (None, Some(amps), _) => Some((join("CURR:", dc_ac), amps.as_str())),
            (None, None, Some(ohms)) => Some((String::from_str(res_fres), ohms.as_str())),
            (None, None, None) => None,
        };
        if let Some((function, range)) = chosen {
            assert(self.function() == Some(function@));
            assert(self.range() == Some(range@));
            push_line(&mut configs, join("CONF:", function.as_str()).concat(" ").concat(range));
            if let Some(resolution) = &self.resolution {
                push_line(
                    &mut configs,
                    join(function.as_str(), ":RES ").concat(resolution.as_str()),
                );
            }
            if let Some(nplc) = &self.nplc {
                push_line(&mut configs, join(function.as_str(), ":NPLC ").concat(nplc.as_str()));
            }
        }
        assert(lines_view(configs@) =~= self.function_commands());
        if self.display_off || self.display_text.is_some() {
            push_line(&mut configs, String::from_str("DISP OFF"));
        }
        if let Some(text) = &self.display_text {
            let shown = match text {
                Some(text) => String::from_str(text.as_str()),
                None => join("DMM Logger (", PKG_VERSION).concat(")"),
            };
            assert(shown@ == self.shown_text());
            push_line(&mut configs, join("DISP:TEXT \"", shown.as_str()).concat("\""));
        }
        assert(lines_view(configs@) =~= self.function_commands() + self.display_commands());
        configs
    }

    /// The commands that undo the configuration after the run.
    pub fn unconfiguration_commands(&self) -> (unconfigs: Vec<String>)
        ensures
            lines_view(unconfigs@) == self.unconfiguration(),
    {
        let mut unconfigs: Vec<String> = Vec::new();
        assert(lines_view(unconfigs@) =~= Seq::<Seq<char>>::empty());
        if self.display_text.is_some() {
            push_line(&mut unconfigs, String::from_str("DISP:TEXT:CLE"));
        }
        if self.display_off || self.display_text.is_some() {
            push_line(&mut unconfigs, String::from_str("DISP ON"));
        }
        if self.beep {
            push_line(&mut unconfigs, String::from_str("SYST:BEEP"));
        }
        assert(lines_view(unconfigs@) =~= self.unconfiguration());
        unconfigs
    }
}

impl Cli {
    /// Appends the switches of the run to the description.
    fn describe_switches(&self, infos: &mut Vec<(String, String)>)
        ensures
            pairs_view(final(infos)@) == pairs_view(old(infos)@) + self.described_switches(),
    {
        if self.drop_slow_samples {
            push_pair(infos, String::from_str("Drop slow samples"), String::from_str("ON"));
        }
        if self.display_off {
            push_pair(infos, String::from_str("Display"), String::from_str("OFF"));
        } else if self.display_text.is_some() {
            push_pair(infos, String::from_str("Display"), String::from_str("Text"));
        }
        assert(pairs_view(infos@) =~= pairs_view(old(infos)@) + self.described_switches());
    }

    /// Appends what is measured to the description.
    fn describe_function(&self, infos: &mut Vec<(String, String)>)
        ensures
            pairs_view(final(infos)@) == pairs_view(old(infos)@) + self.described_function(),
    {
        let dc_ac = if self.ac {
            "AC"
        } else {
            "DC"
        };
        match (&self.voltage, &self.current) {
            (Some(range), _) => {
                push_pair(infos, join(dc_ac, "-Voltage"), join(range.as_str(), " Volts"));
            },
            (None, Some(range)) => {
                push_pair(infos, join(dc_ac, "-Current"), join(range.as_str(), " Amperes"));
            },
            (None, None) => {},
        }
        if let Some(range) = &self.resistance {
            let mode = if self.four {
                "4-wire"
            } else {
                "2-wire"
            };
            push_pair(infos, join("Resistance (", mode).concat(")"), join(range.as_str(), " Ohms"));
        }
        assert(pairs_view(infos@) =~= pairs_view(old(infos)@) + self.described_function());
    }

    /// Appends resolution, integration time and reset to the description.
    fn describe_details(&self, infos: &mut Vec<(String, String)>)
        ensures
            pairs_view(final(infos)@) == pairs_view(old(infos)@) + self.described_details(),
    {
        if let Some(resolution) = &self.resolution {
            push_pair(infos, String::from_str("Resolution"), resolution.clone());
        }
        if let Some(nplc) = &self.nplc {
            push_pair(infos, String::from_str("NPLC"), nplc.clone());
        }
        if self.reset {
            push_pair(infos, String::from_str("Reset instrument"), String::from_str("ON"));
        }
        assert(pairs_view(infos@) =~= pairs_view(old(infos)@) + self.described_details());
    }

    /// Describes the settings for the header of the output. `interval` is
    /// the sampling interval in seconds and `rate` its inverse in hertz,
    /// both written as numbers.
    pub fn describe(&self, interval: &str, rate: &str) -> (infos: Vec<(String, String)>)
        ensures
            pairs_view(infos@) == self.description(interval@, rate@),
    {
        let mut infos: Vec<(String, String)> = Vec::new();
        assert(pairs_view(infos@) =~= Seq::<(Seq<char>, Seq<char>)>::empty());
        push_pair(&mut infos, String::from_str("Sampling interval"), join(interval, " seconds"));
        push_pair(&mut infos, String::from_str("Sample rate"), join(rate, " Hz"));
        assert(pairs_view(infos@) =~= seq![
            ("Sampling interval"@, interval@ + " seconds"@),
            ("Sample rate"@, rate@ + " Hz"@),
        ]);
        self.describe_switches(&mut infos);
        self.describe_function(&mut infos);
        self.describe_details(&mut infos);
        infos
    }
}

} // verus!

//! The lines of the output: the commented header and the comments between
//! the measurements. Writing them is left to the caller.

use vstd::prelude::*;
use vstd::string::StringExecFns;
use vstd::utf8::encode_utf8;
use crate::cli::PKG_VERSION;
use crate::scpi::{Identification, IdentificationView};
use crate::text::{
    count_graphemes, fields, grapheme_count, lines_view, pairs_view, push_line, repeat, repeated,
    split, trim, trim_end, trim_trailing, trimmed,
};

verus! {

/// The names of the columns of a measurement line.
pub const COLUMN_HEADERS: &'static str = "sequence,date,time,moment,delay,latency,reading";

/// The length of the longest label of the instrument's identification.
pub const IDENTIFICATION_WIDTH: usize = 12;

/// Formats the output of one run. Labels are padded to `width`, which only
/// grows.
#[derive(Clone, Copy, Debug, PartialEq, Eq, Structural)]
pub struct CsvFile {
    pub width: usize,
}

/// `label`, padded with spaces to `width` characters where it is shorter.
pub open spec fn padded(label: Seq<char>, width: nat) -> Seq<char> {
    label + repeated(
        " "@,
        if label.len() < width {
            (width - label.len()) as nat
        } else {
            0
        },
    )
}

/// The comment line that shows `value` under `label`.
pub open spec fn label_value(label: Seq<char>, value: Seq<char>, width: nat) -> Seq<char> {
    "# "@ + padded(label, width) + " : "@ + value
}

/// The larger of `width` and the lengths in bytes of the labels of `pairs`.
pub open spec fn widened(width: nat, pairs: Seq<(Seq<char>, Seq<char>)>) -> nat
    decreases pairs.len(),
{
    if pairs.len() == 0 {
        width
    } else {
        let before = widened(width, pairs.drop_last());
        let last = encode_utf8(pairs.last().0).len();
        if last > before {
            last
        } else {
            before
        }
    }
}

/// One comment line per pair.
pub open spec fn label_values(pairs: Seq<(Seq<char>, Seq<char>)>, width: nat) -> Seq<Seq<char>> {
    pairs.map_values(|pair: (Seq<char>, Seq<char>)| label_value(pair.0, pair.1, width))
}

/// The two lines that open the header.
pub open spec fn title(created: Seq<char>) -> Seq<Seq<char>> {
    seq!["# File created by DMM logger ("@ + PKG_VERSION@ + ") on "@ + created, "#"@]
}

/// The settings under their heading; nothing where there are none.
pub open spec fn settings_block(pairs: Seq<(Seq<char>, Seq<char>)>, width: nat) -> Seq<Seq<char>> {
    if pairs.len() == 0 {
        seq![]
    } else {
        seq!["# Settings"@, "# --------"@] + label_values(pairs, width) + seq!["#"@]
    }
}

/// The instrument's identification under its heading.
pub open spec fn instrument_block(ident: IdentificationView, width: nat) -> Seq<Seq<char>> {
    seq![
        "# Instrument"@,
        "# ----------"@,
        label_value("Manufacturer"@, ident.manufacturer, width),
        label_value("Model"@, ident.model, width),
        label_value("Serial"@, ident.serial, width),
        label_value("Firmware"@, ident.firmware, width),
        "#"@,
    ]
}

/// What each column of a measurement line holds.
pub open spec fn fields_block(width: nat) -> Seq<Seq<char>> {
    seq![
        "# Fields"@,
        "# ------"@,
        label_value("sequence"@, "Sequential sample number starting at 0"@, width),
        label_value("date"@, "Local date of measurement: YEAR-MONTH-DAY"@, width),
        label_value(
            "time"@,
            "Local clock time of measurement: HOURS:MINUTES:SECONDS.MILLISECONDS"@,
            width,
        ),
        label_value("moment"@, "Time in seconds since first measurement"@, width),
        label_value(
            "delay"@,
            "Delay of the measurement in seconds, caused by non-real-time behavior or fast logging rate"@,
            width,
        ),
        label_value(
            "latency"@,
            "Measurement duration in seconds including network roundtrip time"@,
            width,
        ),
        label_value("reading"@, "Measured value returned from instrument"@, width),
        "#"@,
    ]
}

impl CsvFile {
    /// A formatter that pads no label yet.
    pub fn new() -> (file: CsvFile)
        ensures
            file.width == 0,
    {
        CsvFile { width: 0 }
    }

    /// Raises the width to `width` where it is lower.
    pub fn ensure_width(&mut self, width: usize)
        ensures
            final(self).width == (if width > old(self).width {
                width
            } else {
                old(self).width
            }),
    {
        if width > self.width {
            self.width = width;
        }
    }

    /// The comment line for `comment`.
    pub fn write_comment(&self, comment: &str) -> (line: String)
        ensures
            line@ == "# "@ + comment@,
    {
        String::from_str("# ").concat(comment)
    }

    /// The line that names the columns.
    pub fn write_column_headers(&self) -> (line: String)
        ensures
            line@ == COLUMN_HEADERS@,
    {
        String::from_str(COLUMN_HEADERS)
    }

    /// The comment line that shows `value` under `label`.
    pub fn write_label_value(&self, label: &str, value: &str) -> (line: String)
        ensures
            line@ == label_value(label@, value@, self.width as nat),
    {
        let used: usize = label.unicode_len();
        let missing: usize = if used < self.width {
            self.width - used
        } else {
            0
        };
        let spaces = repeat(" ", missing);
        String::from_str("# ").concat(label).concat(spaces.as_str()).concat(" : ").concat(value)
    }

    /// The two lines that open the header; `created` is the local time.
    pub fn write_title(&self, created: &str) -> (lines: Vec<String>)
        ensures
            lines_view(lines@) == title(created@),
    {
        let mut lines: Vec<String> = Vec::new();
        lines.push(
            String::from_str("# File created by DMM logger (").concat(PKG_VERSION).concat(
                ") on ",
            ).concat(created),
        );
        lines.push(String::from_str("#"));
        assert(lines_view(lines@) =~= title(created@));
        lines
    }
}

/// The lines of a message: it is trimmed and cut at every line feed, and
/// each line loses the white space at its end.
pub open spec fn message_lines(message: Seq<char>) -> Seq<Seq<char>> {
    fields(trimmed(message), '\n').map_values(|line: Seq<char>| trim_end(line))
}

/// The largest number of grapheme clusters in one of `lines`.
pub open spec fn widest(lines: Seq<Seq<char>>) -> nat
    decreases lines.len(),
{
    if lines.len() == 0 {
        0
    } else {
        let before = widest(lines.drop_last());
        let last = grapheme_count(lines.last());
        if last > before {
            last
        } else {
            before
        }
    }
}

/// Each line behind a comment sign.
pub open spec fn commented(lines: Seq<Seq<char>>) -> Seq<Seq<char>> {
    lines.map_values(|line: Seq<char>| "# "@ + line)
}

/// The message between two rules as long as its widest line; nothing for
/// no message or a message of white space.
pub open spec fn message_block(message: Option<Seq<char>>) -> Seq<Seq<char>> {
    match message {
        Some(text) => if trimmed(text).len() == 0 {
            seq![]
        } else {
            let lines = message_lines(text);
            let rule = "# "@ + repeated("-"@, widest(lines));
            seq![rule] + commented(lines) + seq![rule, "#"@]
        },
        None => seq![],
    }
}

/// The whole header for a formatter that pads to `width`.
pub open spec fn header(
    width: nat,
    settings: Seq<(Seq<char>, Seq<char>)>,
    ident: IdentificationView,
    message: Option<Seq<char>>,
    created: Seq<char>,
) -> Seq<Seq<char>> {
    title(created) + message_block(message) + settings_block(settings, width) + instrument_block(
        ident,
        width,
    ) + fields_block(width) + seq![COLUMN_HEADERS@]
}

/// The text of an optional message.
pub open spec fn message_view(message: Option<&str>) -> Option<Seq<char>> {
    match message {
        Some(text) => Some(text@),
        None => None,
    }
}

/// Moves the lines of `more` to the end of `lines`.
fn push_lines(lines: &mut Vec<String>, more: Vec<String>)
    ensures
        lines_view(final(lines)@) == lines_view(old(lines)@) + lines_view(more@),
{
    let mut more = more;
    let ghost added = more@;
    lines.append(&mut more);
    assert(lines_view(lines@) =~= lines_view(old(lines)@) + lines_view(added));
}

impl CsvFile {
    /// The message block of the header.
    pub fn write_user_message(&self, msg: Option<&str>) -> (lines: Vec<String>)
        ensures
            lines_view(lines@) == message_block(message_view(msg)),
    {
        let mut lines: Vec<String> = Vec::new();
        assert(lines_view(lines@) =~= Seq::<Seq<char>>::empty());
        if let Some(text) = msg {
            let text = trim(text);
            if text.unicode_len() > 0 {
                let pieces = split(text, '\n');
                let ghost wanted = message_lines(msg.unwrap()@);
                let mut cut: Vec<&str> = Vec::new();
                let mut max_len: usize = 0;
                let mut i: usize = 0;
                while i < pieces.len()
                    invariant
                        i <= pieces@.len(),
                        pieces@.len() == wanted.len(),
                        forall|j: int|
                            0 <= j < pieces@.len() ==> trim_end((#[trigger] pieces@[j])@)
                                == wanted[j],
                        cut@.len() == i,
                        forall|j: int| 0 <= j < i ==> (#[trigger] cut@[j])@ == wanted[j],
                        max_len == widest(wanted.take(i as int)),
                    decreases pieces@.len() - i,
                {
                    let line = trim_trailing(pieces[i]);
                    let len = count_graphemes(line);
                    proof {
                        assert(wanted.take(i + 1).drop_last() == wanted.take(i as int));
                    }
                    if len > max_len {
                        max_len = len;
                    }
                    cut.push(line);
                    i = i + 1;
                }
                proof {
                    assert(wanted.take(i as int) == wanted);
                }
                let hline = repeat("-", max_len);
                lines.push(String::from_str("# ").concat(hline.as_str()));
                let mut k: usize = 0;
                while k < cut.len()
                    invariant
                        k <= cut@.len(),
                        cut@.len() == wanted.len(),
                        forall|j: int| 0 <= j < cut@.len() ==> (#[trigger] cut@[j])@ == wanted[j],
                        lines@.len() == k + 1,
                        lines@[0]@ == "# "@ + hline@,
                        forall|j: int|
                            0 <= j < k ==> (#[trigger] lines@[j + 1])@ == "# "@ + wanted[j],
                    decreases cut@.len() - k,
                {
                    lines.push(String::from_str("# ").concat(cut[k]));
                    k = k + 1;
                }
                lines.push(String::from_str("# ").concat(hline.as_str()));
                lines.push(String::from_str("#"));
                proof {
                    let expected = message_block(message_view(msg));
                    let rule = "# "@ + repeated("-"@, widest(wanted));
                    let got = lines_view(lines@);
                    assert(expected == seq![rule] + commented(wanted) + seq![rule, "#"@]);
                    assert(got.len() == expected.len());
                    assert forall|j: int| 0 <= j < got.len() implies got[j] == expected[j] by {
                        if j == 0 {
                        } else if j <= wanted.len() {
                            assert(lines@[(j - 1) + 1]@ == "# "@ + wanted[j - 1]);
                            assert(commented(wanted)[j - 1] == "# "@ + wanted[j - 1]);
                        } else {
                        }
                    }
                    assert(got =~= expected);
                }
            }
        }
        lines
    }

    /// The settings block of the header.
    pub fn write_settings_description(&self, description: &Vec<(String, String)>) -> (lines: Vec<
        String,
    >)
        ensures
            lines_view(lines@) == settings_block(pairs_view(description@), self.width as nat),
    {
        let mut lines: Vec<String> = Vec::new();
        if description.len() > 0 {
            lines.push(String::from_str("# Settings"));
            lines.push(String::from_str("# --------"));
            let mut i: usize = 0;
            while i < description.len()
                invariant
                    i <= description@.len(),
                    lines@.len() == i + 2,
                    lines@[0]@ == "# Settings"@,
                    lines@[1]@ == "# --------"@,
                    forall|j: int|
                        0 <= j < i ==> (#[trigger] lines@[j + 2])@ == label_value(
                            description@[j].0@,
                            description@[j].1@,
                            self.width as nat,
                        ),
                decreases description@.len() - i,
            {
                let line = self.write_label_value(
                    description[i].0.as_str(),
                    description[i].1.as_str(),
                );
                lines.push(line);
                i = i + 1;
            }
            lines.push(String::from_str("#"));
        }
        proof {
            let pairs = pairs_view(description@);
            let expected = settings_block(pairs, self.width as nat);
            let got = lines_view(lines@);
            if description@.len() > 0 {
                assert(expected == seq!["# Settings"@, "# --------"@] + label_values(
                    pairs,
                    self.width as nat,
                ) + seq!["#"@]);
                assert(got.len() == expected.len());
                assert forall|j: int| 0 <= j < got.len() implies got[j] == expected[j] by {
                    if 2 <= j < pairs.len() + 2 {
                        assert(lines@[(j - 2) + 2]@ == label_value(
                            description@[j - 2].0@,
                            description@[j - 2].1@,
                            self.width as nat,
                        ));
                    }
                }
            }
            assert(got =~= expected);
        }
        lines
    }

    /// The identification block of the header.
    pub fn write_instrument_identification(&self, ident: &Identification) -> (lines: Vec<String>)
        ensures
            lines_view(lines@) == instrument_block(ident@, self.width as nat),
    {
        let mut lines: Vec<String> = Vec::new();
        lines.push(String::from_str("# Instrument"));
        lines.push(String::from_str("# ----------"));
        lines.push(self.write_label_value("Manufacturer", ident.manufacturer.as_str()));
        lines.push(self.write_label_value("Model", ident.model.as_str()));
        lines.push(self.write_label_value("Serial", ident.serial.as_str()));
        lines.push(self.write_label_value("Firmware", ident.firmware.as_str()));
        lines.push(String::from_str("#"));
        assert(lines_view(lines@) =~= instrument_block(ident@, self.width as nat));
        lines
    }

    /// The block of the header that explains the columns.
    pub fn write_column_description(&self) -> (lines: Vec<String>)
        ensures
            lines_view(lines@) == fields_block(self.width as nat),
    {
        let mut lines: Vec<String> = Vec::new();
        lines.push(String::from_str("# Fields"));
        lines.push(String::from_str("# ------"));
        lines.push(self.write_label_value("sequence", "Sequential sample number starting at 0"));
        lines.push(self.write_label_value("date", "Local date of measurement: YEAR-MONTH-DAY"));
        lines.push(
            self.write_label_value(
                "time",
                "Local clock time of measurement: HOURS:MINUTES:SECONDS.MILLISECONDS",
            ),
        );
        lines.push(self.write_label_value("moment", "Time in seconds since first measurement"));
        lines.push(
            self.write_label_value(
                "delay",
                "Delay of the measurement in seconds, caused by non-real-time behavior or fast logging rate",
            ),
        );
        lines.push(
            self.write_label_value(
                "latency",
                "Measurement duration in seconds including network roundtrip time",
            ),
        );
        lines.push(self.write_label_value("reading", "Measured value returned from instrument"));
        lines.push(String::from_str("#"));
        assert(lines_view(lines@) =~= fields_block(self.width as nat));
        lines
    }
}

/// The width of a header with the labels of `settings`: no label of the
/// settings, by its length in bytes, and no label of the identification is
/// longer, and the width never shrinks.
pub open spec fn header_width(width: nat, settings: Seq<(Seq<char>, Seq<char>)>) -> nat {
    let labels = widened(width, settings);
    if labels < IDENTIFICATION_WIDTH {
        IDENTIFICATION_WIDTH as nat
    } else {
        labels
    }
}

impl CsvFile {
    /// The header of the output: title, message, settings, identification,
    /// the columns explained and named. All labels are padded to one width.
    /// `created` is the local time, written out.
    pub fn write_header(
        &mut self,
        settings: &Vec<(String, String)>,
        ident: &Identification,
        user_message: Option<&str>,
        created: &str,
    ) -> (lines: Vec<String>)
        ensures
            final(self).width == header_width(old(self).width as nat, pairs_view(settings@)),
            lines_view(lines@) == header(
                final(self).width as nat,
                pairs_view(settings@),
                ident@,
                message_view(user_message),
                created@,
            ),
    {
        let mut i: usize = 0;
        while i < settings.len()
            invariant
                i <= settings@.len(),
                self.width == widened(
                    old(self).width as nat,
                    pairs_view(settings@).take(i as int),
                ),
            decreases settings@.len() - i,
        {
            proof {
                let pairs = pairs_view(settings@);
                assert(pairs.take(i + 1).drop_last() == pairs.take(i as int));
                assert(pairs.take(i + 1).last().0 == settings@[i as int].0@);
            }
            self.ensure_width(settings[i].0.as_str().as_bytes().len());
            i = i + 1;
        }
        proof {
            assert(pairs_view(settings@).take(i as int) == pairs_view(settings@));
        }
        self.ensure_width(IDENTIFICATION_WIDTH);
        let mut lines = self.write_title(created);
        push_lines(&mut lines, self.write_user_message(user_message));
        push_lines(&mut lines, self.write_settings_description(settings));
        push_lines(&mut lines, self.write_instrument_identification(ident));
        push_lines(&mut lines, self.write_column_description());
        push_line(&mut lines, self.write_column_headers());
        lines
    }
}

} // verus!

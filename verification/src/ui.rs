//! Presentation-boundary types: the field enumerations the dialogs navigate,
//! the widget parameter bundles, and the header's click-region geometry.
//! Rendering itself happens outside the engine; what stands here is every
//! decision a renderer or input handler takes on these values.

use vstd::prelude::*;
use crate::color::{scheme_label, ColorScale, ColorScheme};
use crate::config::{mode_label, Config};
use crate::fmt::{dec_str, u64_to_string};
use vstd::string::StringExecFns;
use vstd::utf8::{is_ascii_chars, is_ascii_chars_concat, is_ascii_chars_encode_utf8};

verus! {

/// Minimum terminal width at which the legend is shown.
pub const MIN_WIDTH_FOR_LEGEND: u16 = 100;

/// Width of the legend panel.
pub const LEGEND_WIDTH: u16 = 16;

/// Popup info for a clicked probe result.
#[derive(Clone, Copy, Debug)]
pub struct PingPopup {
    /// Stable sequence number of the result (not its ring position).
    pub result_seq: usize,
    /// Screen column of the click.
    pub screen_x: u16,
    /// Screen row of the click.
    pub screen_y: u16,
}

/// The settings dialog's fields, in navigation order.
#[derive(Clone, Copy, Debug, PartialEq, Eq, Structural)]
pub enum SettingsField {
    /// Target host.
    Target,
    /// Probe interval.
    Interval,
    /// Color scale ceiling.
    Scale,
    /// Color scheme.
    ColorScheme,
    /// Cursor visibility.
    HideCursor,
    /// History buffer size.
    BufferSize,
    /// Confirm button.
    Confirm,
    /// Cancel button.
    Cancel,
}

/// The field after `f` in navigation order, wrapping around.
pub open spec fn next_field(f: SettingsField) -> SettingsField {
    match f {
        SettingsField::Target => SettingsField::Interval,
        SettingsField::Interval => SettingsField::Scale,
        SettingsField::Scale => SettingsField::ColorScheme,
        SettingsField::ColorScheme => SettingsField::HideCursor,
        SettingsField::HideCursor => SettingsField::BufferSize,
        SettingsField::BufferSize => SettingsField::Confirm,
        SettingsField::Confirm => SettingsField::Cancel,
        SettingsField::Cancel => SettingsField::Target,
    }
}

/// The field before `f` in navigation order, wrapping around.
pub open spec fn prev_field(f: SettingsField) -> SettingsField {
    match f {
        SettingsField::Target => SettingsField::Cancel,
        SettingsField::Interval => SettingsField::Target,
        SettingsField::Scale => SettingsField::Interval,
        SettingsField::ColorScheme => SettingsField::Scale,
        SettingsField::HideCursor => SettingsField::ColorScheme,
        SettingsField::BufferSize => SettingsField::HideCursor,
        SettingsField::Confirm => SettingsField::BufferSize,
        SettingsField::Cancel => SettingsField::Confirm,
    }
}

impl SettingsField {
    /// The next field in navigation order.
    pub fn next(self) -> (r: Self)
        ensures
            r == next_field(self),
    {
        match self {
            SettingsField::Target => SettingsField::Interval,
            SettingsField::Interval => SettingsField::Scale,
            SettingsField::Scale => SettingsField::ColorScheme,
            SettingsField::ColorScheme => SettingsField::HideCursor,
            SettingsField::HideCursor => SettingsField::BufferSize,
            SettingsField::BufferSize => SettingsField::Confirm,
            SettingsField::Confirm => SettingsField::Cancel,
            SettingsField::Cancel => SettingsField::Target,
        }
    }

    /// The previous field in navigation order.
    pub fn prev(self) -> (r: Self)
        ensures
            r == prev_field(self),
    {
        match self {
            SettingsField::Target => SettingsField::Cancel,
            SettingsField::Interval => SettingsField::Target,
            SettingsField::Scale => SettingsField::Interval,
            SettingsField::ColorScheme => SettingsField::Scale,
            SettingsField::HideCursor => SettingsField::ColorScheme,
            SettingsField::BufferSize => SettingsField::HideCursor,
            SettingsField::Confirm => SettingsField::BufferSize,
            SettingsField::Cancel => SettingsField::Confirm,
        }
    }

    /// Whether the field takes typed text.
    pub fn is_text_input(self) -> (r: bool)
        ensures
            r == (self == SettingsField::Target || self == SettingsField::Interval || self
                == SettingsField::Scale || self == SettingsField::BufferSize),
    {
        match self {
            SettingsField::Target
            | SettingsField::Interval
            | SettingsField::Scale
            | SettingsField::BufferSize => true,
            _ => false,
        }
    }

    /// Whether the field is a button.
    pub fn is_button(self) -> (r: bool)
        ensures
            r == (self == SettingsField::Confirm || self == SettingsField::Cancel),
    {
        match self {
            SettingsField::Confirm | SettingsField::Cancel => true,
            _ => false,
        }
    }
}

/// The header fields that can be edited inline.
#[derive(Clone, Copy, Debug, PartialEq, Eq, Structural)]
pub enum HeaderEditField {
    /// Target host.
    Target,
    /// Probe interval.
    Interval,
    /// Color scale ceiling.
    Scale,
    /// Color scheme.
    Colors,
}

/// The parameters of one settings-dialog rendering.
pub struct SettingsMenu {
    /// The selected field.
    pub selected_field: SettingsField,
    /// Target host being edited.
    pub target: String,
    /// Interval value being edited.
    pub interval: u64,
    /// Scale value being edited.
    pub scale: u64,
    /// Color scheme being edited.
    pub colors: ColorScheme,
    /// Cursor visibility being edited.
    pub hide_cursor: bool,
    /// Buffer size in megabytes being edited.
    pub buffer_mb: u64,
    /// Whether a text field is in input mode.
    pub input_active: bool,
    /// The text input buffer.
    pub input_buffer: String,
    /// Cursor position in the input buffer.
    pub input_cursor: usize,
    /// Whether the whole input is selected.
    pub input_selected: bool,
}

impl SettingsMenu {
    /// Bundle the dialog state for one rendering.
    pub fn new(
        selected_field: SettingsField,
        target: String,
        interval: u64,
        scale: u64,
        colors: ColorScheme,
        hide_cursor: bool,
        buffer_mb: u64,
        input_active: bool,
        input_buffer: String,
        input_cursor: usize,
        input_selected: bool,
    ) -> (r: Self)
        ensures
            r.selected_field == selected_field,
            r.target == target,
            r.interval == interval,
            r.scale == scale,
            r.colors == colors,
            r.hide_cursor == hide_cursor,
            r.buffer_mb == buffer_mb,
            r.input_active == input_active,
            r.input_buffer == input_buffer,
            r.input_cursor == input_cursor,
            r.input_selected == input_selected,
    {
        SettingsMenu {
            selected_field,
            target,
            interval,
            scale,
            colors,
            hide_cursor,
            buffer_mb,
            input_active,
            input_buffer,
            input_cursor,
            input_selected,
        }
    }
}

/// The parameters of one legend rendering.
pub struct Legend<'a> {
    /// The color scale the legend explains.
    pub color_scale: &'a ColorScale,
}

impl<'a> Legend<'a> {
    /// A legend over the given scale.
    pub fn new(color_scale: &'a ColorScale) -> (r: Self)
        ensures
            r.color_scale == color_scale,
    {
        Legend { color_scale }
    }
}

/// A clickable span of header columns.
#[derive(Clone, Copy, Debug, PartialEq, Eq, Structural)]
pub struct HeaderClickRegion {
    /// First column of the span.
    pub start_x: u16,
    /// One past the last column of the span.
    pub end_x: u16,
    /// What the span edits.
    pub field: HeaderField,
}

/// What a header click region stands for.
#[derive(Clone, Copy, Debug, PartialEq, Eq, Structural)]
pub enum HeaderField {
    /// Target host.
    Target,
    /// Probe interval.
    Interval,
    /// Color scale ceiling.
    Scale,
    /// Color scheme.
    Colors,
    /// The settings button.
    Settings,
}

/// The parameters of one header rendering.
pub struct Header<'a> {
    /// The configuration the header shows.
    pub config: &'a Config,
    /// The resolved address of the target, when known.
    pub resolved_ip: Option<&'a String>,
    /// Terminal width in columns.
    pub terminal_width: u16,
    /// The header field selected for keyboard editing, if any.
    pub selected_field: Option<HeaderEditField>,
}

impl<'a> Header<'a> {
    /// A header over the given configuration.
    pub fn new(
        config: &'a Config,
        resolved_ip: Option<&'a String>,
        terminal_width: u16,
        selected_field: Option<HeaderEditField>,
    ) -> (r: Self)
        ensures
            r.config == config,
            r.resolved_ip == resolved_ip,
            r.terminal_width == terminal_width,
            r.selected_field == selected_field,
    {
        Header { config, resolved_ip, terminal_width, selected_field }
    }

    /// The target as the header shows it: the host, the host with its
    /// resolved address when they differ, or a placeholder.
    pub open spec fn target_text(self) -> Seq<char> {
        match self.config.host {
            Some(h) => match self.resolved_ip {
                Some(ip) => if h@ != ip@ {
                    h@ + " ("@ + ip@ + ")"@
                } else {
                    h@
                },
                None => h@,
            },
            None => "not set"@,
        }
    }

    /// One past the last column the left-hand header content occupies:
    /// border, labels, separators and the four values.
    pub open spec fn content_end(self) -> int {
        9int + self.target_text().len() + 3 + 6 + mode_label(self.config.mode).len() + 3 + 10
            + dec_str(self.config.interval as int).len() + 2 + 3 + 7 + dec_str(
            self.config.scale as int,
        ).len() + 2 + 3 + 8 + scheme_label(self.config.colors).len()
    }

    /// The five click regions: the four editable values, at the columns the
    /// rendered header puts them, and the right-aligned settings button.
    pub open spec fn regions_spec(self) -> Seq<HeaderClickRegion> {
        let t_start = 9int;
        let t_end = t_start + self.target_text().len();
        let i_start = t_end + 3 + 6 + mode_label(self.config.mode).len() + 3 + 10;
        let i_end = i_start + dec_str(self.config.interval as int).len() + 2;
        let s_start = i_end + 3 + 7;
        let s_end = s_start + dec_str(self.config.scale as int).len() + 2;
        let c_start = s_end + 3 + 8;
        let c_end = c_start + scheme_label(self.config.colors).len();
        let set_end = if self.terminal_width >= 2 {
            self.terminal_width - 2
        } else {
            0
        };
        let set_start = if set_end >= 13 {
            (set_end - 13) as u16
        } else {
            0
        };
        seq![
            HeaderClickRegion {
                start_x: t_start as u16,
                end_x: t_end as u16,
                field: HeaderField::Target,
            },
            HeaderClickRegion {
                start_x: i_start as u16,
                end_x: i_end as u16,
                field: HeaderField::Interval,
            },
            HeaderClickRegion {
                start_x: s_start as u16,
                end_x: s_end as u16,
                field: HeaderField::Scale,
            },
            HeaderClickRegion {
                start_x: c_start as u16,
                end_x: c_end as u16,
                field: HeaderField::Colors,
            },
            HeaderClickRegion { start_x: set_start, end_x: set_end as u16, field: HeaderField::Settings },
        ]
    }

    /// Compute the click regions, relative to the content area inside the
    /// border. Column arithmetic is over display columns; the host and
    /// resolved address are ASCII (one column per byte), and the whole line
    /// fits the column range a terminal can address.
    pub fn calculate_click_regions(&self) -> (r: Vec<HeaderClickRegion>)
        requires
            self.config.host matches Some(h) ==> is_ascii_chars(h@),
            self.resolved_ip matches Some(ip) ==> is_ascii_chars(ip@),
            self.content_end() <= u16::MAX,
        ensures
            r@ == self.regions_spec(),
    {
        proof {
            reveal_strlit(" (");
            reveal_strlit(")");
            reveal_strlit("not set");
            reveal_strlit("ms");
        }
        let target: String = match &self.config.host {
            Some(host) => match self.resolved_ip {
                Some(ip) => if !host.eq(ip) {
                    let mut t = host.clone();
                    t.append(" (");
                    t.append(ip.as_str());
                    t.append(")");
                    t
                } else {
                    host.clone()
                },
                None => host.clone(),
            },
            None => String::from_str("not set"),
        };
        proof {
            assert(target@ == self.target_text());
            assert(is_ascii_chars(" ("@) && is_ascii_chars(")"@) && is_ascii_chars("not set"@));
            if self.config.host is Some && self.resolved_ip is Some {
                let h = self.config.host->0@;
                let ip = (*self.resolved_ip->0)@;
                is_ascii_chars_concat(h + " ("@, h, " ("@);
                is_ascii_chars_concat(h + " ("@ + ip, h + " ("@, ip);
                is_ascii_chars_concat(h + " ("@ + ip + ")"@, h + " ("@ + ip, ")"@);
            }
            assert(is_ascii_chars(target@));
        }
        let target_len = ascii_len(&target);
        let mode_str = self.config.mode.label();
        proof {
            reveal_strlit("ICMP");
            reveal_strlit("UDP Client");
            reveal_strlit("UDP Server");
            assert(is_ascii_chars(mode_str@));
        }
        let mode_len = ascii_len(&mode_str);
        let interval_digits = u64_to_string(self.config.interval);
        let scale_digits = u64_to_string(self.config.scale);
        proof {
            lemma_dec_str_ascii(self.config.interval as int);
            lemma_dec_str_ascii(self.config.scale as int);
        }
        let interval_len = ascii_len(&interval_digits) + 2;
        let scale_len = ascii_len(&scale_digits) + 2;
        let colors_str = self.config.colors.label();
        proof {
            reveal_strlit("Classic");
            reveal_strlit("Dark");
            reveal_strlit("Ocean");
            reveal_strlit("Fire");
            reveal_strlit("Neon");
            reveal_strlit("Grayscale");
            reveal_strlit("Matrix");
            reveal_strlit("Plasma");
            reveal_strlit("Ice");
            reveal_strlit("Thermal");
            assert(is_ascii_chars(colors_str@));
        }
        let colors_len = ascii_len(&colors_str);
        let mut regions: Vec<HeaderClickRegion> = Vec::new();
        let mut pos: usize = 1;
        pos = pos + 8;
        let target_start = pos;
        pos = pos + target_len;
        let target_end = pos;
        regions.push(
            HeaderClickRegion {
                start_x: target_start as u16,
                end_x: target_end as u16,
                field: HeaderField::Target,
            },
        );
        pos = pos + 3;
        pos = pos + 6 + mode_len;
        pos = pos + 3;
        pos = pos + 10;
        let interval_start = pos;
        pos = pos + interval_len;
        let interval_end = pos;
        regions.push(
            HeaderClickRegion {
                start_x: interval_start as u16,
                end_x: interval_end as u16,
                field: HeaderField::Interval,
            },
        );
        pos = pos + 3;
        pos = pos + 7;
        let scale_start = pos;
        pos = pos + scale_len;
        let scale_end = pos;
        regions.push(
            HeaderClickRegion {
                start_x: scale_start as u16,
                end_x: scale_end as u16,
                field: HeaderField::Scale,
            },
        );
        pos = pos + 3;
        pos = pos + 8;
        let colors_start = pos;
        pos = pos + colors_len;
        let colors_end = pos;
        regions.push(
            HeaderClickRegion {
                start_x: colors_start as u16,
                end_x: colors_end as u16,
                field: HeaderField::Colors,
            },
        );
        let settings_end: u16 = if self.terminal_width >= 2 {
            self.terminal_width - 2
        } else {
            0
        };
        let settings_start: u16 = if settings_end >= 13 {
            settings_end - 13
        } else {
            0
        };
        regions.push(
            HeaderClickRegion {
                start_x: settings_start,
                end_x: settings_end,
                field: HeaderField::Settings,
            },
        );
        proof {
            assert(regions@ =~= self.regions_spec());
        }
        regions
    }
}

/// The byte length of an ASCII string is its character count.
fn ascii_len(s: &String) -> (r: usize)
    requires
        is_ascii_chars(s@),
        s@.len() <= usize::MAX,
    ensures
        r == s@.len(),
{
    proof {
        is_ascii_chars_encode_utf8(s@);
    }
    s.as_str().len()
}

/// Decimal digit strings are ASCII.
proof fn lemma_dec_str_ascii(n: int)
    ensures
        is_ascii_chars(dec_str(n)),
    decreases n,
{
    if n >= 10 {
        lemma_dec_str_ascii(n / 10);
    }
}

} // verus!

//! What the audio server tells the client besides samples.
//!
//! None of it changes what the oscilloscope does: each notice becomes one line
//! for the log, and where the server wants an answer the answer is to go on.
use vstd::prelude::*;
use vstd::string::*;

verus! {

/// The answer to a notice that asks whether the client wants to go on.
#[derive(Clone, Copy, Debug, PartialEq, Eq)]
pub enum Control {
    /// Go on processing.
    Continue,
    /// Stop processing.
    Quit,
}

/// Which of the two latencies of a port a notice speaks of.
#[derive(Clone, Copy, Debug, PartialEq, Eq)]
pub enum LatencyType {
    Capture,
    Playback,
}

/// The text of a decimal digit.
pub open spec fn digit(d: nat) -> Seq<char> {
    if d == 0 {
        "0"@
    } else if d == 1 {
        "1"@
    } else if d == 2 {
        "2"@
    } else if d == 3 {
        "3"@
    } else if d == 4 {
        "4"@
    } else if d == 5 {
        "5"@
    } else if d == 6 {
        "6"@
    } else if d == 7 {
        "7"@
    } else if d == 8 {
        "8"@
    } else {
        "9"@
    }
}

/// The decimal text of `n`, without leading zeros.
pub open spec fn decimal(n: nat) -> Seq<char>
    decreases n,
{
    if n < 10 {
        digit(n)
    } else {
        decimal(n / 10) + digit(n % 10)
    }
}

fn digit_text(d: u32) -> (r: &'static str)
    requires
        d < 10,
    ensures
        r@ == digit(d as nat),
{
    if d == 0 {
        "0"
    } else if d == 1 {
        "1"
    } else if d == 2 {
        "2"
    } else if d == 3 {
        "3"
    } else if d == 4 {
        "4"
    } else if d == 5 {
        "5"
    } else if d == 6 {
        "6"
    } else if d == 7 {
        "7"
    } else if d == 8 {
        "8"
    } else {
        "9"
    }
}

/// Writes the decimal text of `n` behind what `line` holds.
fn append_decimal(line: &mut String, n: u32)
    ensures
        final(line)@ == old(line)@ + decimal(n as nat),
    decreases n,
{
    if n >= 10 {
        append_decimal(line, n / 10);
    }
    line.append(digit_text(n % 10));
    assert(final(line)@ =~= old(line)@ + decimal(n as nat));
}

/// The word for a registration or its end.
pub open spec fn registered(is_reg: bool) -> Seq<char> {
    if is_reg {
        "registered"@
    } else {
        "unregistered"@
    }
}

/// The client's answers to the audio server's notices.
pub struct Notifications;

impl Notifications {
    /// The server's thread for this client has started.
    pub fn thread_init(&self) -> (line: String)
        ensures
            line@ == "JACK: thread init"@,
    {
        String::from_str("JACK: thread init")
    }

    /// The server has shut the client down, with the status and for the
    /// reason given.
    pub fn shutdown(&mut self, status: &str, reason: &str) -> (line: String)
        ensures
            line@ == "JACK: shutdown with status "@ + status@ + " because \""@ + reason@ + "\""@,
    {
        let mut line = String::from_str("JACK: shutdown with status ");
        line.append(status);
        line.append(" because \"");
        line.append(reason);
        line.append("\"");
        line
    }

    /// Freewheel mode was switched on or off.
    pub fn freewheel(&mut self, is_enabled: bool) -> (line: String)
        ensures
            line@ == "JACK: freewheel mode is "@ + (if is_enabled {
                "on"@
            } else {
                "of"@
            }),
    {
        let mut line = String::from_str("JACK: freewheel mode is ");
        line.append(
            if is_enabled {
                "on"
            } else {
                "of"
            },
        );
        line
    }

    /// The server's buffer now holds `sz` frames.
    pub fn buffer_size(&mut self, sz: u32) -> (r: (String, Control))
        ensures
            r.0@ == "JACK: buffer size changed to "@ + decimal(sz as nat),
            r.1 == Control::Continue,
    {
        let mut line = String::from_str("JACK: buffer size changed to ");
        append_decimal(&mut line, sz);
        (line, Control::Continue)
    }

    /// The server now runs at `srate` frames a second.
    pub fn sample_rate(&mut self, srate: u32) -> (r: (String, Control))
        ensures
            r.0@ == "JACK: sample rate changed to "@ + decimal(srate as nat),
            r.1 == Control::Continue,
    {
        let mut line = String::from_str("JACK: sample rate changed to ");
        append_decimal(&mut line, srate);
        (line, Control::Continue)
    }

    /// A client of this name came or went.
    pub fn client_registration(&mut self, name: &str, is_reg: bool) -> (line: String)
        ensures
            line@ == "JACK: "@ + registered(is_reg) + " client with name \""@ + name@ + "\""@,
    {
        let mut line = String::from_str("JACK: ");
        line.append(
            if is_reg {
                "registered"
            } else {
                "unregistered"
            },
        );
        line.append(" client with name \"");
        line.append(name);
        line.append("\"");
        line
    }

    /// A port of this number came or went.
    pub fn port_registration(&mut self, port_id: u32, is_reg: bool) -> (line: String)
        ensures
            line@ == "JACK: "@ + registered(is_reg) + " port with id "@ + decimal(port_id as nat),
    {
        let mut line = String::from_str("JACK: ");
        line.append(
            if is_reg {
                "registered"
            } else {
                "unregistered"
            },
        );
        line.append(" port with id ");
        append_decimal(&mut line, port_id);
        line
    }

    /// A port got another name.
    pub fn port_rename(&mut self, port_id: u32, old_name: &str, new_name: &str) -> (r: (
        String,
        Control,
    ))
        ensures
            r.0@ == "JACK: port with id "@ + decimal(port_id as nat) + " renamed from "@
                + old_name@ + " to "@ + new_name@,
            r.1 == Control::Continue,
    {
        let mut line = String::from_str("JACK: port with id ");
        append_decimal(&mut line, port_id);
        line.append(" renamed from ");
        line.append(old_name);
        line.append(" to ");
        line.append(new_name);
        (line, Control::Continue)
    }

    /// Two ports were connected or parted.
    pub fn ports_connected(&mut self, port_id_a: u32, port_id_b: u32, are_connected: bool) -> (line:
        String)
        ensures
            line@ == "JACK: ports with id "@ + decimal(port_id_a as nat) + " and "@ + decimal(
                port_id_b as nat,
            ) + " are "@ + (if are_connected {
                "connected"@
            } else {
                "disconnected"@
            }),
    {
        let mut line = String::from_str("JACK: ports with id ");
        append_decimal(&mut line, port_id_a);
        line.append(" and ");
        append_decimal(&mut line, port_id_b);
        line.append(" are ");
        line.append(
            if are_connected {
                "connected"
            } else {
                "disconnected"
            },
        );
        line
    }

    /// The server put its clients in a new order.
    pub fn graph_reorder(&mut self) -> (r: (String, Control))
        ensures
            r.0@ == "JACK: graph reordered"@,
            r.1 == Control::Continue,
    {
        (String::from_str("JACK: graph reordered"), Control::Continue)
    }

    /// The server missed a deadline.
    pub fn xrun(&mut self) -> (r: (String, Control))
        ensures
            r.0@ == "JACK: xrun occurred"@,
            r.1 == Control::Continue,
    {
        (String::from_str("JACK: xrun occurred"), Control::Continue)
    }

    /// One of the two latencies has changed.
    pub fn latency(&mut self, mode: LatencyType) -> (line: String)
        ensures
            line@ == (match mode {
                LatencyType::Capture => "JACK: capture latency has changed"@,
                LatencyType::Playback => "JACK: playback latency has changed"@,
            }),
    {
        match mode {
            LatencyType::Capture => String::from_str("JACK: capture latency has changed"),
            LatencyType::Playback => String::from_str("JACK: playback latency has changed"),
        }
    }
}

} // verus!

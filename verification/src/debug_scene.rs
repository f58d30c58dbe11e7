//! The diagnostics scene: host name, address, uptime and bus connectivity.

use vstd::prelude::*;
use vstd::string::*;
use crate::identity::system_hostname;
use crate::layout::{middle, middle_of, TextRect};
use crate::text::{decimal, decimal_text, join};

verus! {

/// `local_ip_address::local_ip`, with the address written out: the address
/// of this host on its local network as the system reports it at this
/// moment, or nothing where it reports none. Nothing is claimed of the
/// address itself.
#[verifier::external_body]
fn local_address() -> (address: Option<String>) {
    local_ip_address::local_ip().ok().map(|ip| ip.to_string())
}

/// `systemstat::Platform::uptime`, in whole seconds: how long the system has
/// been up as it reports at this moment, or nothing where the reading fails.
/// Nothing is claimed of the number itself.
#[verifier::external_body]
fn system_uptime() -> (secs: Option<u64>) {
    let system: systemstat::System = systemstat::Platform::new();
    systemstat::Platform::uptime(&system).ok().map(|uptime| uptime.as_secs())
}

/// Why a frame could not be put together.
#[derive(Debug, Clone, Copy, PartialEq, Eq, Structural)]
pub enum RenderError {
    /// The system reported no local address.
    NoAddress,
    /// The system reported no uptime.
    NoUptime,
}

/// What the diagnostics scene remembers between frames.
#[derive(Debug, Clone, PartialEq, Eq)]
pub struct DebugScene {
    mqtt_connected: bool,
    hostname: String,
}

/// The diagnostics scene's state, the host name taken as characters.
pub struct DebugSceneView {
    pub mqtt_connected: bool,
    pub hostname: Seq<char>,
}

impl View for DebugScene {
    type V = DebugSceneView;

    closed spec fn view(&self) -> DebugSceneView {
        DebugSceneView { mqtt_connected: self.mqtt_connected, hostname: self.hostname@ }
    }
}

/// Lines per frame.
pub const LINE_COUNT: usize = 4;

/// Distance from one line's top to the next, in pixels.
pub const LINE_HEIGHT: i32 = 30;

/// The uptime line for an uptime of `secs` seconds: whole hours, then the
/// remaining whole minutes, then the remaining seconds.
pub open spec fn uptime_line(secs: nat) -> Seq<char> {
    "Uptime: "@ + decimal_text(secs / 3600) + "h "@ + decimal_text((secs % 3600) / 60) + "m "@ + decimal_text(
        secs % 60,
    ) + "s"@
}

/// The status line for a bus that is reachable or not.
pub open spec fn status_line(connected: bool) -> Seq<char> {
    "MQTT Status: "@ + (if connected {
        "Connected"@
    } else {
        "Disconnected"@
    })
}

/// The four lines of a frame, top to bottom.
pub open spec fn frame_lines(scene: DebugSceneView, ip: Seq<char>, uptime_secs: nat) -> Seq<Seq<char>> {
    seq![
        "Hostname: "@ + scene.hostname,
        "IP Address: "@ + ip,
        uptime_line(uptime_secs),
        status_line(scene.mqtt_connected),
    ]
}

/// The frame for the readings that were taken: the four lines where both
/// readings are there; otherwise the first reading that is missing, the
/// address before the uptime.
pub open spec fn frame_from(scene: DebugSceneView, address: Option<Seq<char>>, uptime_secs: Option<u64>) -> Result<Seq<Seq<char>>, RenderError> {
    match address {
        None => Err(RenderError::NoAddress),
        Some(ip) => match uptime_secs {
            None => Err(RenderError::NoUptime),
            Some(secs) => Ok(frame_lines(scene, ip, secs as nat)),
        },
    }
}

/// The lines of a frame, each taken as its characters.
pub open spec fn frame_view(frame: Result<Vec<String>, RenderError>) -> Result<Seq<Seq<char>>, RenderError> {
    match frame {
        Ok(lines) => Ok(lines.deep_view()),
        Err(error) => Err(error),
    }
}

/// A text as an option of its characters.
pub open spec fn reading_view(reading: Option<String>) -> Option<Seq<char>> {
    match reading {
        Some(text) => Some(text@),
        None => None,
    }
}

/// Where line `index` of a frame goes: centred left to right, and the block
/// of lines centred top to bottom.
pub open spec fn line_rect(index: int, canvas_width: u32, canvas_height: u32, text_width: u32, text_height: u32) -> TextRect {
    TextRect {
        x: (middle(canvas_width) - middle(text_width)) as i32,
        y: (middle(canvas_height) - (LINE_COUNT * LINE_HEIGHT) / 2 + index * LINE_HEIGHT) as i32,
        width: text_width,
        height: text_height,
    }
}

impl DebugScene {
    /// A scene for the host name that was reported, or for `unknown` where
    /// none was. It starts out showing the bus as unreachable.
    pub fn with_hostname(reported: Option<String>) -> (scene: DebugScene)
        ensures
            !scene@.mqtt_connected,
            scene@.hostname == (match reported {
                Some(name) => name@,
                None => "unknown"@,
            }),
    {
        let hostname = match reported {
            Some(name) => name,
            None => "unknown".to_owned(),
        };
        DebugScene { mqtt_connected: false, hostname }
    }

    /// A scene for this host, under whatever name the system reports now. It
    /// starts out showing the bus as unreachable.
    pub fn new() -> (scene: DebugScene)
        ensures
            !scene@.mqtt_connected,
    {
        DebugScene::with_hostname(system_hostname())
    }

    /// Records whether the bus is reachable, for the next frame to show.
    pub fn set_mqtt_status(&mut self, connected: bool)
        ensures
            final(self)@.mqtt_connected == connected,
            final(self)@.hostname == old(self)@.hostname,
    {
        self.mqtt_connected = connected;
    }

    /// Whether the scene shows the bus as reachable.
    pub fn mqtt_connected(&self) -> (connected: bool)
        ensures
            connected == self@.mqtt_connected,
    {
        self.mqtt_connected
    }

    /// The host name that the scene shows.
    pub fn hostname(&self) -> (name: &str)
        ensures
            name@ == self@.hostname,
    {
        self.hostname.as_str()
    }

    /// A copy in the same state.
    pub fn duplicate(&self) -> (copy: DebugScene)
        ensures
            copy@ == self@,
    {
        DebugScene { mqtt_connected: self.mqtt_connected, hostname: self.hostname.clone() }
    }

    /// The text of one frame, top to bottom, for the address and the uptime
    /// that the system reports now. Whatever it reports, the frame is the one
    /// that `render_from` gives for those readings.
    pub fn render(&self) -> (frame: Result<Vec<String>, RenderError>)
        ensures
            frame matches Ok(lines) ==> lines.len() == LINE_COUNT && exists|ip: Seq<char>, secs: u64|
                lines.deep_view() == frame_lines(self@, ip, secs as nat),
    {
        let address = local_address();
        let uptime_secs = system_uptime();
        let frame = self.render_from(address, uptime_secs);
        proof {
            if frame is Ok {
                assert(frame_view(frame)->Ok_0 == frame_lines(
                    self@,
                    reading_view(address)->Some_0,
                    uptime_secs->Some_0 as nat,
                ));
            }
        }
        frame
    }

    /// The text of one frame for the readings that were taken. A missing
    /// reading fails the frame: the address is asked for first.
    pub fn render_from(&self, address: Option<String>, uptime_secs: Option<u64>) -> (frame: Result<Vec<String>, RenderError>)
        ensures
            frame_view(frame) == frame_from(self@, reading_view(address), uptime_secs),
            frame matches Ok(lines) ==> lines.len() == LINE_COUNT,
    {
        match address {
            None => Err(RenderError::NoAddress),
            Some(ip) => match uptime_secs {
                None => Err(RenderError::NoUptime),
                Some(secs) => Ok(self.frame(ip.as_str(), secs)),
            },
        }
    }

    /// The text of one frame, top to bottom, for the address `ip` and an
    /// uptime of `uptime_secs` seconds.
    pub fn frame(&self, ip: &str, uptime_secs: u64) -> (lines: Vec<String>)
        ensures
            lines.deep_view() == frame_lines(self@, ip@, uptime_secs as nat),
            lines.len() == LINE_COUNT,
    {
        let hours = decimal(uptime_secs / 3600);
        let minutes = decimal((uptime_secs % 3600) / 60);
        let seconds = decimal(uptime_secs % 60);
        let mut uptime = join("Uptime: ", hours.as_str());
        uptime.append("h ");
        uptime.append(minutes.as_str());
        uptime.append("m ");
        uptime.append(seconds.as_str());
        uptime.append("s");
        let status = if self.mqtt_connected {
            join("MQTT Status: ", "Connected")
        } else {
            join("MQTT Status: ", "Disconnected")
        };
        let mut lines: Vec<String> = Vec::new();
        lines.push(join("Hostname: ", self.hostname.as_str()));
        lines.push(join("IP Address: ", ip));
        lines.push(uptime);
        lines.push(status);
        assert(lines.deep_view() =~= frame_lines(self@, ip@, uptime_secs as nat));
        lines
    }

    /// Where line `index` of a frame goes, given the canvas's size and the
    /// size of the rendered line. A frame has no line beyond the fourth.
    pub fn place_line(index: usize, canvas_width: u32, canvas_height: u32, text_width: u32, text_height: u32) -> (rect: Option<TextRect>)
        ensures
            index < LINE_COUNT ==> rect == Some(line_rect(index as int, canvas_width, canvas_height, text_width, text_height)),
            index < LINE_COUNT ==> rect.unwrap().x == middle(canvas_width) - middle(text_width),
            index < LINE_COUNT ==> rect.unwrap().y == middle(canvas_height) - 60 + 30 * index,
            index >= LINE_COUNT ==> rect is None,
    {
        if index >= LINE_COUNT {
            return None;
        }
        let row: i32 = index as i32;
        let start_y: i32 = middle_of(canvas_height) - (LINE_COUNT as i32 * LINE_HEIGHT) / 2;
        Some(
            TextRect {
                x: middle_of(canvas_width) - middle_of(text_width),
                y: start_y + row * LINE_HEIGHT,
                width: text_width,
                height: text_height,
            },
        )
    }
}

} // verus!

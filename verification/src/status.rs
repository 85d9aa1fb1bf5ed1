//! Decoding of the device's status reply: the 32-bit hardware status
//! bitmask and the reply envelope's numeric fields.

use vstd::prelude::*;
use vstd::string::*;

verus! {

/// The hardware conditions encoded in the status bitmask, decoded as an
/// ordered table of independent predicates over the same word.  Two
/// names may share one bit — the hardware reuses positions between
/// device families — and both are then reported together; the table is
/// deliberately not a partition.
#[derive(Clone, Copy, Debug, Default, PartialEq, Eq, Structural)]
pub struct PrinterStatus {
    /// No response from the printer.
    pub no_response: bool,
    /// Printing completed successfully.
    pub success: bool,
    /// Status of the third pin of the drawer kick-out connector is high.
    pub drawer_kick_out_connector: bool,
    /// Offline because of remaining battery; shares its bit with the
    /// drawer kick-out status.
    pub battery_offline_status: bool,
    /// Offline.
    pub offline: bool,
    /// The cover is open.
    pub cover_open: bool,
    /// Paper is being fed by a feed-switch operation.
    pub paper_feed_operation: bool,
    /// Waiting to be brought back online.
    pub waiting_online: bool,
    /// The paper feed switch is being pressed.
    pub paper_feed_switch_pressed: bool,
    /// A mechanical error occurred.
    pub mechanical_error: bool,
    /// An autocutter error occurred.
    pub autocutter_error: bool,
    /// An unrecoverable error occurred.
    pub unrecoverable: bool,
    /// An automatically recoverable error occurred.
    pub recoverable: bool,
    /// No paper in the roll-paper near-end sensor.
    pub no_paper_roll_near_end_sensor: bool,
    /// No paper in the roll-paper end sensor.
    pub no_paper_in_roll_paper_end_sensor: bool,
    /// A buzzer is on, on applicable devices; shares its bit with the
    /// label-removal wait.
    pub buzzer_on: bool,
    /// Waiting for removal of a label, on applicable devices.
    pub label_wait_removal: bool,
    /// No paper in the label peeling sensor, on applicable devices.
    pub no_paper_in_peel_sensor: bool,
    /// The spooler has stopped.
    pub spooler_stopped: bool,
}

/// The decoding of one status word: each named condition holds exactly
/// when its mask intersects the word.
pub open spec fn decode_status(value: u32) -> PrinterStatus {
    PrinterStatus {
        no_response: value & 0x00000001 != 0,
        success: value & 0x00000002 != 0,
        drawer_kick_out_connector: value & 0x00000004 != 0,
        battery_offline_status: value & 0x00000004 != 0,
        offline: value & 0x00000008 != 0,
        cover_open: value & 0x00000020 != 0,
        paper_feed_operation: value & 0x00000040 != 0,
        waiting_online: value & 0x00000100 != 0,
        paper_feed_switch_pressed: value & 0x00000200 != 0,
        mechanical_error: value & 0x00000400 != 0,
        autocutter_error: value & 0x00000800 != 0,
        unrecoverable: value & 0x00002000 != 0,
        recoverable: value & 0x00004000 != 0,
        no_paper_roll_near_end_sensor: value & 0x00020000 != 0,
        no_paper_in_roll_paper_end_sensor: value & 0x00080000 != 0,
        buzzer_on: value & 0x01000000 != 0,
        label_wait_removal: value & 0x01000000 != 0,
        no_paper_in_peel_sensor: value & 0x40000000 != 0,
        spooler_stopped: value & 0x80000000 != 0,
    }
}

impl vstd::std_specs::convert::FromSpecImpl<u32> for PrinterStatus {
    open spec fn obeys_from_spec() -> bool {
        true
    }

    open spec fn from_spec(value: u32) -> PrinterStatus {
        decode_status(value)
    }
}

impl From<u32> for PrinterStatus {
    /// Decodes the status bitmask into the named conditions.
    fn from(value: u32) -> (r: PrinterStatus) {
        PrinterStatus {
            no_response: value & 0x00000001 != 0,
            success: value & 0x00000002 != 0,
            drawer_kick_out_connector: value & 0x00000004 != 0,
            battery_offline_status: value & 0x00000004 != 0,
            offline: value & 0x00000008 != 0,
            cover_open: value & 0x00000020 != 0,
            paper_feed_operation: value & 0x00000040 != 0,
            waiting_online: value & 0x00000100 != 0,
            paper_feed_switch_pressed: value & 0x00000200 != 0,
            mechanical_error: value & 0x00000400 != 0,
            autocutter_error: value & 0x00000800 != 0,
            unrecoverable: value & 0x00002000 != 0,
            recoverable: value & 0x00004000 != 0,
            no_paper_roll_near_end_sensor: value & 0x00020000 != 0,
            no_paper_in_roll_paper_end_sensor: value & 0x00080000 != 0,
            buzzer_on: value & 0x01000000 != 0,
            label_wait_removal: value & 0x01000000 != 0,
            no_paper_in_peel_sensor: value & 0x40000000 != 0,
            spooler_stopped: value & 0x80000000 != 0,
        }
    }
}

/// One JSON object member naming a set condition.
pub open spec fn flag_item(name: Seq<char>) -> Seq<char> {
    "\""@ + name + "\":true"@
}

/// Folds one table entry into the JSON body: a cleared condition adds
/// nothing, a set one appends its member after a separating comma.
pub open spec fn flag_step(acc: Seq<char>, name: Seq<char>, on: bool) -> Seq<char> {
    if !on {
        acc
    } else if acc.len() == 0 {
        flag_item(name)
    } else {
        acc + ","@ + flag_item(name)
    }
}

fn push_flag(body: &mut String, name: &str, on: bool)
    ensures
        final(body)@ == flag_step(old(body)@, name@, on),
{
    if on {
        if !body.as_str().is_empty() {
            body.append(",");
        }
        body.append("\"");
        body.append(name);
        body.append("\":true");
        proof {
            assert(final(body)@ =~= flag_step(old(body)@, name@, on));
        }
    }
}

impl PrinterStatus {
    /// The JSON rendering of the decoded conditions: the set ones only,
    /// in table order.
    pub open spec fn json(self) -> Seq<char> {
        "{"@ + flag_step(
            flag_step(
                flag_step(
                    flag_step(
                        flag_step(
                            flag_step(
                                flag_step(
                                    flag_step(
                                        flag_step(
                                            flag_step(
                                                flag_step(
                                                    flag_step(
                                                        flag_step(
                                                            flag_step(
                                                                flag_step(
                                                                    flag_step(
                                                                        flag_step(
                                                                            flag_step(
                                                                                flag_step(
                                                                                    Seq::empty(),
                                                                                    "no_response"@,
                                                                                    self.no_response,
                                                                                ),
                                                                                "success"@,
                                                                                self.success,
                                                                            ),
                                                                            "drawer_kick_out_connector"@,
                                                                            self.drawer_kick_out_connector,
                                                                        ),
                                                                        "battery_offline_status"@,
                                                                        self.battery_offline_status,
                                                                    ),
                                                                    "offline"@,
                                                                    self.offline,
                                                                ),
                                                                "cover_open"@,
                                                                self.cover_open,
                                                            ),
                                                            "paper_feed_operation"@,
                                                            self.paper_feed_operation,
                                                        ),
                                                        "waiting_online"@,
                                                        self.waiting_online,
                                                    ),
                                                    "paper_feed_switch_pressed"@,
                                                    self.paper_feed_switch_pressed,
                                                ),
                                                "mechanical_error"@,
                                                self.mechanical_error,
                                            ),
                                            "autocutter_error"@,
                                            self.autocutter_error,
                                        ),
                                        "unrecoverable"@,
                                        self.unrecoverable,
                                    ),
                                    "recoverable"@,
                                    self.recoverable,
                                ),
                                "no_paper_roll_near_end_sensor"@,
                                self.no_paper_roll_near_end_sensor,
                            ),
                            "no_paper_in_roll_paper_end_sensor"@,
                            self.no_paper_in_roll_paper_end_sensor,
                        ),
                        "buzzer_on"@,
                        self.buzzer_on,
                    ),
                    "label_wait_removal"@,
                    self.label_wait_removal,
                ),
                "no_paper_in_peel_sensor"@,
                self.no_paper_in_peel_sensor,
            ),
            "spooler_stopped"@,
            self.spooler_stopped,
        ) + "}"@
    }

    /// Renders the decoded conditions as a JSON object, set flags only,
    /// in table order.
    #[verifier::rlimit(100)]
    pub fn to_json(&self) -> (r: String)
        ensures
            r@ == self.json(),
    {
        let mut body = String::new();
        push_flag(&mut body, "no_response", self.no_response);
        push_flag(&mut body, "success", self.success);
        push_flag(&mut body, "drawer_kick_out_connector", self.drawer_kick_out_connector);
        push_flag(&mut body, "battery_offline_status", self.battery_offline_status);
        push_flag(&mut body, "offline", self.offline);
        push_flag(&mut body, "cover_open", self.cover_open);
        push_flag(&mut body, "paper_feed_operation", self.paper_feed_operation);
        push_flag(&mut body, "waiting_online", self.waiting_online);
        push_flag(&mut body, "paper_feed_switch_pressed", self.paper_feed_switch_pressed);
        push_flag(&mut body, "mechanical_error", self.mechanical_error);
        push_flag(&mut body, "autocutter_error", self.autocutter_error);
        push_flag(&mut body, "unrecoverable", self.unrecoverable);
        push_flag(&mut body, "recoverable", self.recoverable);
        push_flag(&mut body, "no_paper_roll_near_end_sensor", self.no_paper_roll_near_end_sensor);
        push_flag(
            &mut body,
            "no_paper_in_roll_paper_end_sensor",
            self.no_paper_in_roll_paper_end_sensor,
        );
        push_flag(&mut body, "buzzer_on", self.buzzer_on);
        push_flag(&mut body, "label_wait_removal", self.label_wait_removal);
        push_flag(&mut body, "no_paper_in_peel_sensor", self.no_paper_in_peel_sensor);
        push_flag(&mut body, "spooler_stopped", self.spooler_stopped);
        let mut out = String::from_str("{");
        out.append(body.as_str());
        out.append("}");
        proof {
            assert(out@ =~= self.json());
        }
        out
    }
}

/// A status reply from the device.
#[derive(Clone, Debug, Default)]
pub struct Response {
    /// The reply's namespace attribute.
    pub ns: String,
    /// Whether the print job succeeded.
    pub success: bool,
    /// The vendor error code; meaningful only on failure.
    pub code: String,
    /// The raw 32-bit status bitmask; decode it with
    /// `PrinterStatus::from`.
    pub status: u32,
    /// The battery status code.
    pub battery: u32,
}

impl Response {
    /// Decodes the status bitmask carried in the reply.
    pub fn flags(&self) -> (r: PrinterStatus)
        ensures
            r == decode_status(self.status),
    {
        PrinterStatus::from(self.status)
    }

    /// A one-line account of the reply: the vendor code and the decoded
    /// status conditions.
    pub fn summary(&self) -> (r: String)
        ensures
            r@ == "status: '"@ + self.code@ + "' codes: "@ + decode_status(self.status).json(),
    {
        let mut out = String::from_str("status: '");
        out.append(self.code.as_str());
        out.append("' codes: ");
        let flags = self.flags();
        let json = flags.to_json();
        out.append(json.as_str());
        proof {
            assert(out@ =~= "status: '"@ + self.code@ + "' codes: "@ + decode_status(
                self.status,
            ).json());
        }
        out
    }
}

} // verus!

//! Configuration, device registries and the lifecycle of the passthrough.

use vstd::prelude::*;

use crate::hid::{keyboard_report, keyboard_report_bytes, mouse_report, mouse_report_bytes};
use crate::keyboard;
use crate::keyboard::{
    check_keyboards, key_change, key_transition, path_views, KeyboardState,
};
use crate::mouse;
use crate::mouse::{
    buttons_of, check_mouses, configured_mouse_paths, decoded_packet, default_settings,
    feature_bytes, mouse_feature, mouse_paths, neutral_event, released_buttons, same_device, Mouse,
    MouseRaw, MouseSettings, PACKET_LEN,
};

verus! {

/// A configured pointing device.
#[derive(Clone, Debug)]
pub struct HidMouse {
    pub mouse_path: String,
    pub mouse_poll_rate: Option<i32>,
    pub mouse_side_buttons: bool,
}

/// What to read from and where to write: the input devices and the gadget node.
#[derive(Clone, Debug)]
pub struct HidSpecification {
    pub mouse_inputs: Option<Vec<HidMouse>>,
    pub keyboard_inputs: Option<Vec<String>>,
    pub gadget_output: String,
}

/// `r` lists, in ascending order and each once, the positions of the `configured` paths that
/// are not among the `open` ones.
pub open spec fn lists_unopened(r: Seq<usize>, configured: Seq<Seq<char>>, open: Seq<Seq<char>>) -> bool {
    &&& forall|j: int|
        0 <= j < r.len() ==> r[j] < configured.len() && !open.contains(#[trigger] configured[r[j] as int])
    &&& forall|j: int, k: int| 0 <= j < k < r.len() ==> r[j] < r[k]
    &&& forall|i: int|
        0 <= i < configured.len() && !open.contains(#[trigger] configured[i]) ==> r.contains(i as usize)
}

/// Extends `lists_unopened` by one more configured path, listed when it is not open.
pub(crate) proof fn lemma_lists_unopened_step(
    r: Seq<usize>,
    configured: Seq<Seq<char>>,
    open: Seq<Seq<char>>,
    i: int,
)
    requires
        0 <= i < configured.len(),
        i < usize::MAX,
        forall|j: int| 0 <= j < r.len() ==> r[j] < i,
        lists_unopened(r, configured.take(i), open),
    ensures
        open.contains(configured[i]) ==> lists_unopened(r, configured.take(i + 1), open),
        !open.contains(configured[i]) ==> lists_unopened(
            r.push(i as usize),
            configured.take(i + 1),
            open,
        ),
{
    let before = configured.take(i);
    let after = configured.take(i + 1);
    assert forall|k: int| 0 <= k < i implies after[k] == before[k] by {}
    if open.contains(configured[i]) {
        assert forall|k: int| 0 <= k < after.len() && !open.contains(#[trigger] after[k]) implies r.contains(
            k as usize,
        ) by {
            assert(k < i);
            assert(!open.contains(before[k]));
        }
    } else {
        let s = r.push(i as usize);
        assert forall|j: int| 0 <= j < s.len() implies s[j] < after.len() && !open.contains(
            #[trigger] after[s[j] as int],
        ) by {
            if j < r.len() {
                assert(s[j] == r[j]);
                assert(!open.contains(before[r[j] as int]));
            }
        }
        assert forall|k: int| 0 <= k < after.len() && !open.contains(#[trigger] after[k]) implies s.contains(
            k as usize,
        ) by {
            if k < i {
                assert(!open.contains(before[k]));
                let m = choose|m: int| 0 <= m < r.len() && r[m] == k as usize;
                assert(s[m] == k as usize);
            } else {
                assert(s[r.len() as int] == k as usize);
            }
        }
    }
}

/// The position of the first occurrence of `x` in `s`, if any.
pub open spec fn index_of(s: Seq<Seq<char>>, x: Seq<char>) -> Option<int> {
    if exists|i: int| 0 <= i < s.len() && s[i] == x {
        Some(
            choose|i: int|
                0 <= i < s.len() && s[i] == x && forall|j: int| 0 <= j < i ==> s[j] != x,
        )
    } else {
        None
    }
}

/// Finds the first occurrence of `x` in `s`.
proof fn lemma_index_of(s: Seq<Seq<char>>, x: Seq<char>, i: int)
    requires
        0 <= i < s.len(),
        s[i] == x,
        forall|j: int| 0 <= j < i ==> s[j] != x,
    ensures
        index_of(s, x) == Some(i),
{
    let k = choose|k: int| 0 <= k < s.len() && s[k] == x && forall|j: int| 0 <= j < k ==> s[j] != x;
    assert(0 <= k < s.len() && s[k] == x && forall|j: int| 0 <= j < k ==> s[j] != x);
    if k < i {
        assert(s[k] != x);
    } else if k > i {
        assert(s[i] != x);
    }
}

/// Where in the registry the device at `path` stands.
fn find_mouse(mice: &Vec<Mouse>, path: &String) -> (r: Option<usize>)
    ensures
        r matches Some(i) ==> index_of(mouse_paths(mice@), path@) == Some(i as int),
        r is None ==> index_of(mouse_paths(mice@), path@) is None,
{
    let ghost paths = mouse_paths(mice@);
    let mut i: usize = 0;
    while i < mice.len()
        invariant
            i <= mice@.len(),
            paths == mouse_paths(mice@),
            forall|j: int| 0 <= j < i ==> paths[j] != path@,
        decreases mice@.len() - i,
    {
        if mice[i].mouse_path == *path {
            proof {
                lemma_index_of(paths, path@, i as int);
            }
            return Some(i);
        }
        i = i + 1;
    }
    None
}

/// Where in the list the keyboard at `path` stands.
fn find_keyboard(paths: &Vec<String>, path: &String) -> (r: Option<usize>)
    ensures
        r matches Some(i) ==> index_of(path_views(paths@), path@) == Some(i as int),
        r is None ==> index_of(path_views(paths@), path@) is None,
{
    let ghost views = path_views(paths@);
    let mut i: usize = 0;
    while i < paths.len()
        invariant
            i <= paths@.len(),
            views == path_views(paths@),
            forall|j: int| 0 <= j < i ==> views[j] != path@,
        decreases paths@.len() - i,
    {
        if paths[i] == *path {
            proof {
                lemma_index_of(views, path@, i as int);
            }
            return Some(i);
        }
        i = i + 1;
    }
    None
}

/// The lifecycle of the passthrough.
#[derive(Clone, Copy, Debug, PartialEq, Eq, Structural)]
pub enum Phase {
    Stopped,
    Starting,
    Running,
    Stopping,
}

/// Why a lifecycle step was refused.
#[derive(Clone, Copy, Debug, PartialEq, Eq, Structural)]
pub enum PassthroughError {
    /// The outcome of opening the gadget reported while not starting.
    NotStarting,
    /// The gadget output could not be opened: starting failed.
    GadgetUnavailable,
    /// `stop` before any configuration was given.
    NotStarted,
    /// The end of a shutdown reported while not stopping.
    NotStopping,
}

/// The reports that leave the downstream host with nothing held.
pub struct ShutdownReports {
    pub mouse: [u8; 8],
    pub keyboard: [u8; 9],
}

/// The configured pointing devices of a specification.
pub open spec fn mice_of(specification: HidSpecification) -> Seq<HidMouse> {
    match specification.mouse_inputs {
        Some(v) => v@,
        None => Seq::empty(),
    }
}

/// The configured keyboards of a specification.
pub open spec fn keyboards_of(specification: HidSpecification) -> Seq<String> {
    match specification.keyboard_inputs {
        Some(v) => v@,
        None => Seq::empty(),
    }
}

/// The registry entry of a newly attached configured device.
pub open spec fn fresh_mouse(input: HidMouse) -> Mouse {
    Mouse {
        mouse_path: input.mouse_path,
        mouse_settings: default_settings(),
        mouse_state: released_buttons(),
        side_buttons: input.mouse_side_buttons,
    }
}

/// The decisions of the passthrough: its phase, the configuration, the devices that are open,
/// and the keys held across all keyboards.
pub struct Passthrough {
    phase: Phase,
    specification: Option<HidSpecification>,
    mouses: Vec<Mouse>,
    keyboards: Vec<String>,
    keyboard_state: KeyboardState,
}

impl Passthrough {
    pub closed spec fn spec_phase(&self) -> Phase {
        self.phase
    }

    /// The configured pointing devices (none before the first `start`).
    pub closed spec fn configured_mice(&self) -> Seq<HidMouse> {
        match self.specification {
            Some(s) => mice_of(s),
            None => Seq::empty(),
        }
    }

    /// The configured keyboards (none before the first `start`).
    pub closed spec fn configured_keyboards(&self) -> Seq<String> {
        match self.specification {
            Some(s) => keyboards_of(s),
            None => Seq::empty(),
        }
    }

    /// The path of the gadget output (none before the first `start`).
    pub closed spec fn gadget(&self) -> Option<Seq<char>> {
        match self.specification {
            Some(s) => Some(s.gadget_output@),
            None => None,
        }
    }

    /// The open pointing devices.
    pub closed spec fn mice(&self) -> Seq<Mouse> {
        self.mouses@
    }

    /// The paths of the open keyboards.
    pub closed spec fn open_keyboards(&self) -> Seq<Seq<char>> {
        path_views(self.keyboards@)
    }

    /// The keys and modifiers held across all keyboards.
    pub closed spec fn held(&self) -> KeyboardState {
        self.keyboard_state
    }

    /// Each device is open at most once, and devices are open only while running.
    pub open spec fn wf(&self) -> bool {
        &&& self.held().wf()
        &&& mouse_paths(self.mice()).no_duplicates()
        &&& self.open_keyboards().no_duplicates()
        &&& self.spec_phase() != Phase::Running ==> self.mice().len() == 0
            && self.open_keyboards().len() == 0
    }

    /// A stopped passthrough with no configuration.
    pub fn new() -> (r: Passthrough)
        ensures
            r.wf(),
            r.spec_phase() == Phase::Stopped,
            r.mice().len() == 0,
            r.open_keyboards().len() == 0,
            r.held().keys().len() == 0,
            r.held().modifiers().len() == 0,
    {
        Passthrough {
            phase: Phase::Stopped,
            specification: None,
            mouses: Vec::new(),
            keyboards: Vec::new(),
            keyboard_state: KeyboardState::new(),
        }
    }

    #[verifier::when_used_as_spec(spec_phase)]
    pub fn phase(&self) -> (r: Phase)
        ensures
            r == self.spec_phase(),
    {
        self.phase
    }

    /// Whether device readers and the scanner should go on.
    pub fn keep_reading(&self) -> (r: bool)
        ensures
            r == (self.spec_phase() == Phase::Running),
    {
        self.phase == Phase::Running
    }

    /// The open pointing devices.
    pub fn mouses(&self) -> (r: &Vec<Mouse>)
        ensures
            r@ == self.mice(),
    {
        &self.mouses
    }

    /// The keys and modifiers held across all keyboards.
    pub fn keyboard(&self) -> (r: &KeyboardState)
        ensures
            *r == self.held(),
    {
        &self.keyboard_state
    }

    /// The path of the gadget output, once a configuration was given.
    pub fn gadget_output(&self) -> (r: Option<&String>)
        ensures
            r matches Some(g) ==> self.gadget() == Some(g@),
            r is None ==> self.gadget() is None,
    {
        match &self.specification {
            Some(specification) => Some(&specification.gadget_output),
            None => None,
        }
    }

    /// Takes the configuration and begins starting when stopped, and gives true: the gadget
    /// output is to be opened next. Otherwise starting is already under way (or a shutdown
    /// is), nothing changes, and it gives false.
    pub fn start(&mut self, specification: HidSpecification) -> (r: bool)
        requires
            old(self).wf(),
        ensures
            final(self).wf(),
            old(self).spec_phase() == Phase::Stopped ==> {
                &&& r
                &&& final(self).spec_phase() == Phase::Starting
                &&& final(self).configured_mice() == mice_of(specification)
                &&& final(self).configured_keyboards() == keyboards_of(specification)
                &&& final(self).gadget() == Some(specification.gadget_output@)
                &&& final(self).mice() == old(self).mice()
                &&& final(self).open_keyboards() == old(self).open_keyboards()
                &&& final(self).held() == old(self).held()
            },
            old(self).spec_phase() != Phase::Stopped ==> !r && *final(self) == *old(self),
    {
        if self.phase != Phase::Stopped {
            return false;
        }
        self.specification = Some(specification);
        self.phase = Phase::Starting;
        true
    }

    /// Finishes starting with the outcome of opening the gadget output: running when it
    /// opened, stopped with an error when it did not.
    pub fn gadget_opened(&mut self, opened: bool) -> (r: Result<(), PassthroughError>)
        requires
            old(self).wf(),
        ensures
            final(self).wf(),
            old(self).spec_phase() == Phase::Starting && opened ==> r is Ok
                && final(self).spec_phase() == Phase::Running,
            old(self).spec_phase() == Phase::Starting && !opened ==> r == Err::<(), _>(
                PassthroughError::GadgetUnavailable,
            ) && final(self).spec_phase() == Phase::Stopped,
            old(self).spec_phase() == Phase::Starting ==> {
                &&& final(self).configured_mice() == old(self).configured_mice()
                &&& final(self).gadget() == old(self).gadget()
                &&& final(self).configured_keyboards() == old(self).configured_keyboards()
                &&& final(self).mice() == old(self).mice()
                &&& final(self).open_keyboards() == old(self).open_keyboards()
                &&& final(self).held() == old(self).held()
            },
            old(self).spec_phase() != Phase::Starting ==> r == Err::<(), _>(
                PassthroughError::NotStarting,
            ) && *final(self) == *old(self),
    {
        if self.phase != Phase::Starting {
            return Err(PassthroughError::NotStarting);
        }
        if opened {
            self.phase = Phase::Running;
            Ok(())
        } else {
            self.phase = Phase::Stopped;
            Err(PassthroughError::GadgetUnavailable)
        }
    }

    /// The positions in the configuration of the pointing devices to try to open: those not
    /// open yet, while running; none otherwise.
    pub fn pending_mice(&self) -> (r: Vec<usize>)
        ensures
            self.spec_phase() == Phase::Running ==> lists_unopened(
                r@,
                configured_mouse_paths(self.configured_mice()),
                mouse_paths(self.mice()),
            ),
            self.spec_phase() != Phase::Running ==> r@.len() == 0,
    {
        if self.phase != Phase::Running {
            return Vec::new();
        }
        match &self.specification {
            Some(specification) => match &specification.mouse_inputs {
                Some(inputs) => check_mouses(inputs, &self.mouses),
                None => {
                    proof {
                        assert(configured_mouse_paths(self.configured_mice()).len() == 0);
                    }
                    Vec::new()
                },
            },
            None => Vec::new(),
        }
    }

    /// The positions in the configuration of the keyboards to try to open: those not open
    /// yet, while running; none otherwise.
    pub fn pending_keyboards(&self) -> (r: Vec<usize>)
        ensures
            self.spec_phase() == Phase::Running ==> lists_unopened(
                r@,
                path_views(self.configured_keyboards()),
                self.open_keyboards(),
            ),
            self.spec_phase() != Phase::Running ==> r@.len() == 0,
    {
        if self.phase != Phase::Running {
            return Vec::new();
        }
        match &self.specification {
            Some(specification) => match &specification.keyboard_inputs {
                Some(inputs) => check_keyboards(inputs, &self.keyboards),
                None => {
                    proof {
                        assert(path_views(self.configured_keyboards()).len() == 0);
                    }
                    Vec::new()
                },
            },
            None => Vec::new(),
        }
    }

    /// Registers the configured pointing device at `index`, whose path was just opened, and
    /// gives the handshake to send to it. Nothing happens, and nothing is given, unless running
    /// with `index` in the configuration and that path not open yet.
    pub fn attach_mouse(&mut self, index: usize) -> (r: Option<[u8; 6]>)
        requires
            old(self).wf(),
        ensures
            final(self).wf(),
            ({
                let attached = old(self).spec_phase() == Phase::Running && index
                    < old(self).configured_mice().len() && !mouse_paths(old(self).mice()).contains(
                    old(self).configured_mice()[index as int].mouse_path@,
                );
                let input = old(self).configured_mice()[index as int];
                if attached {
                    &&& r matches Some(handshake) && handshake@ == feature_bytes(
                        input.mouse_side_buttons,
                    )
                    &&& final(self).mice() == old(self).mice().push(fresh_mouse(input))
                    &&& final(self).spec_phase() == old(self).spec_phase()
                    &&& final(self).configured_mice() == old(self).configured_mice()
                    &&& final(self).gadget() == old(self).gadget()
                    &&& final(self).configured_keyboards() == old(self).configured_keyboards()
                    &&& final(self).open_keyboards() == old(self).open_keyboards()
                    &&& final(self).held() == old(self).held()
                } else {
                    r is None && *final(self) == *old(self)
                }
            }),
    {
        if self.phase != Phase::Running {
            return None;
        }
        let inputs = match &self.specification {
            Some(specification) => match &specification.mouse_inputs {
                Some(inputs) => inputs,
                None => return None,
            },
            None => return None,
        };
        if index >= inputs.len() || mouse::is_mouse_open(&self.mouses, &inputs[index].mouse_path) {
            return None;
        }
        let input = &inputs[index];
        let side_buttons = input.mouse_side_buttons;
        let device = Mouse::new(input.mouse_path.clone(), side_buttons);
        let ghost before = mouse_paths(self.mouses@);
        self.mouses.push(device);
        proof {
            assert(mouse_paths(self.mouses@) =~= before.push(device.mouse_path@));
            assert forall|i: int, j: int|
                0 <= i < j < before.len() + 1 implies mouse_paths(self.mouses@)[i] != mouse_paths(
                self.mouses@,
            )[j] by {
                if j == before.len() {
                    assert(before.contains(before[i]));
                }
            }
        }
        Some(mouse_feature(side_buttons))
    }

    /// Registers the configured keyboard at `index`, whose path was just opened, and gives the
    /// command to send to it. Nothing happens, and nothing is given, unless running with
    /// `index` in the configuration and that path not open yet.
    pub fn attach_keyboard(&mut self, index: usize) -> (r: Option<[u8; 2]>)
        requires
            old(self).wf(),
        ensures
            final(self).wf(),
            ({
                let attached = old(self).spec_phase() == Phase::Running && index
                    < old(self).configured_keyboards().len() && !old(self).open_keyboards().contains(
                    old(self).configured_keyboards()[index as int]@,
                );
                if attached {
                    &&& r matches Some(command) && command@ == seq![0xf0u8, 2u8]
                    &&& final(self).open_keyboards() == old(self).open_keyboards().push(
                        old(self).configured_keyboards()[index as int]@,
                    )
                    &&& final(self).spec_phase() == old(self).spec_phase()
                    &&& final(self).configured_mice() == old(self).configured_mice()
                    &&& final(self).gadget() == old(self).gadget()
                    &&& final(self).configured_keyboards() == old(self).configured_keyboards()
                    &&& final(self).mice() == old(self).mice()
                    &&& final(self).held() == old(self).held()
                } else {
                    r is None && *final(self) == *old(self)
                }
            }),
    {
        if self.phase != Phase::Running {
            return None;
        }
        let inputs = match &self.specification {
            Some(specification) => match &specification.keyboard_inputs {
                Some(inputs) => inputs,
                None => return None,
            },
            None => return None,
        };
        if index >= inputs.len() || keyboard::is_path_listed(&self.keyboards, &inputs[index]) {
            return None;
        }
        let path = inputs[index].clone();
        let ghost before = path_views(self.keyboards@);
        self.keyboards.push(path);
        proof {
            assert(path_views(self.keyboards@) =~= before.push(path@));
            assert forall|i: int, j: int|
                0 <= i < j < before.len() + 1 implies path_views(self.keyboards@)[i] != path_views(
                self.keyboards@,
            )[j] by {
                if j == before.len() {
                    assert(before.contains(before[i]));
                }
            }
        }
        Some(keyboard::scancode_set_packet())
    }

    /// Handles the bytes of one read from the pointing device at `path`. While running, a
    /// complete packet from an open device updates that device's buttons and gives the report
    /// to send; anything else changes nothing and gives nothing.
    pub fn mouse_packet(&mut self, path: &String, packet: &[u8]) -> (r: Option<[u8; 8]>)
        requires
            old(self).wf(),
        ensures
            final(self).wf(),
            match index_of(mouse_paths(old(self).mice()), path@) {
                Some(i) if old(self).spec_phase() == Phase::Running && packet@.len()
                    >= PACKET_LEN => {
                    let device = old(self).mice()[i];
                    let raw = decoded_packet(packet@, device.side_buttons, device.mouse_settings);
                    &&& r matches Some(report) && report@ == mouse_report_bytes(raw)
                    &&& final(self).mice() == old(self).mice().update(
                        i,
                        final(self).mice()[i],
                    )
                    &&& same_device(device, final(self).mice()[i])
                    &&& final(self).mice()[i].mouse_state == buttons_of(raw)
                    &&& final(self).spec_phase() == old(self).spec_phase()
                    &&& final(self).configured_mice() == old(self).configured_mice()
                    &&& final(self).gadget() == old(self).gadget()
                    &&& final(self).configured_keyboards() == old(self).configured_keyboards()
                    &&& final(self).open_keyboards() == old(self).open_keyboards()
                    &&& final(self).held() == old(self).held()
                },
                _ => r is None && *final(self) == *old(self),
            },
    {
        if self.phase != Phase::Running || packet.len() < PACKET_LEN {
            return None;
        }
        let i = match find_mouse(&self.mouses, path) {
            Some(i) => i,
            None => return None,
        };
        let ghost before = self.mouses@;
        let report = mouse::attempt_read(&mut self.mouses[i], packet);
        proof {
            assert(mouse_paths(self.mouses@) =~= mouse_paths(before));
        }
        report
    }

    /// Handles the bytes of one read from the keyboard at `path`. While running, a record
    /// from an open keyboard is handled as `keyboard::attempt_read` does on the keys held
    /// across all keyboards; anything else changes nothing and gives nothing.
    pub fn key_record(&mut self, path: &String, record: &[u8], record_len: usize) -> (r: Option<
        [u8; 9],
    >)
        requires
            old(self).wf(),
        ensures
            final(self).wf(),
            final(self).spec_phase() == old(self).spec_phase(),
            final(self).configured_mice() == old(self).configured_mice(),
            final(self).gadget() == old(self).gadget(),
            final(self).configured_keyboards() == old(self).configured_keyboards(),
            final(self).mice() == old(self).mice(),
            final(self).open_keyboards() == old(self).open_keyboards(),
            ({
                let change = if old(self).spec_phase() == Phase::Running
                    && old(self).open_keyboards().contains(path@) {
                    key_change(record@, record_len as int)
                } else {
                    None
                };
                match change {
                    Some(ev) => {
                        &&& (final(self).held().keys(), final(self).held().modifiers())
                            == key_transition(
                            old(self).held().keys(),
                            old(self).held().modifiers(),
                            crate::keymap::spec_key_target(ev.code),
                            ev.value != 0,
                        )
                        &&& r matches Some(report) && report@ == keyboard_report_bytes(
                            final(self).held().keys(),
                            final(self).held().modifiers(),
                        )
                    },
                    None => r is None && final(self).held() == old(self).held(),
                }
            }),
    {
        if self.phase != Phase::Running || !keyboard::is_path_listed(&self.keyboards, path) {
            return None;
        }
        keyboard::attempt_read(&mut self.keyboard_state, record, record_len)
    }

    /// Replaces the settings of the open pointing device at `path`; they apply from its next
    /// packet. Gives whether such a device is open.
    pub fn set_mouse_settings(&mut self, path: &String, settings: MouseSettings) -> (r: bool)
        requires
            old(self).wf(),
        ensures
            final(self).wf(),
            r == index_of(mouse_paths(old(self).mice()), path@) is Some,
            final(self).spec_phase() == old(self).spec_phase(),
            final(self).configured_mice() == old(self).configured_mice(),
            final(self).gadget() == old(self).gadget(),
            final(self).configured_keyboards() == old(self).configured_keyboards(),
            final(self).open_keyboards() == old(self).open_keyboards(),
            final(self).held() == old(self).held(),
            match index_of(mouse_paths(old(self).mice()), path@) {
                Some(i) => final(self).mice() == old(self).mice().update(
                    i,
                    Mouse { mouse_settings: settings, ..old(self).mice()[i] },
                ),
                None => final(self).mice() == old(self).mice(),
            },
    {
        let i = match find_mouse(&self.mouses, path) {
            Some(i) => i,
            None => return false,
        };
        let ghost before = self.mouses@;
        self.mouses[i].mouse_settings = settings;
        proof {
            assert(self.mouses@ =~= before.update(
                i as int,
                Mouse { mouse_settings: settings, ..before[i as int] },
            ));
            assert(mouse_paths(self.mouses@) =~= mouse_paths(before));
        }
        true
    }

    /// Drops the device at `path` after its read failed: it leaves whichever registry holds
    /// it, and every other entry stays as it was, in order.
    pub fn device_failed(&mut self, path: &String)
        requires
            old(self).wf(),
        ensures
            final(self).wf(),
            final(self).spec_phase() == old(self).spec_phase(),
            final(self).configured_mice() == old(self).configured_mice(),
            final(self).gadget() == old(self).gadget(),
            final(self).configured_keyboards() == old(self).configured_keyboards(),
            final(self).held() == old(self).held(),
            match index_of(mouse_paths(old(self).mice()), path@) {
                Some(i) => final(self).mice() == old(self).mice().remove(i),
                None => final(self).mice() == old(self).mice(),
            },
            match index_of(old(self).open_keyboards(), path@) {
                Some(i) => final(self).open_keyboards() == old(self).open_keyboards().remove(i),
                None => final(self).open_keyboards() == old(self).open_keyboards(),
            },
    {
        if let Some(i) = find_mouse(&self.mouses, path) {
            let ghost before = self.mouses@;
            self.mouses.remove(i);
            proof {
                assert(mouse_paths(self.mouses@) =~= mouse_paths(before).remove(i as int));
                assert forall|a: int, b: int|
                    0 <= a < b < self.mouses@.len() implies mouse_paths(self.mouses@)[a]
                    != mouse_paths(self.mouses@)[b] by {
                    let s = mouse_paths(before);
                    if a >= i {
                        assert(s[a + 1] != s[b + 1]);
                    } else if b >= i {
                        assert(s[a] != s[b + 1]);
                    } else {
                        assert(s[a] != s[b]);
                    }
                }
            }
        }
        if let Some(i) = find_keyboard(&self.keyboards, path) {
            let ghost before = path_views(self.keyboards@);
            self.keyboards.remove(i);
            proof {
                assert(path_views(self.keyboards@) =~= before.remove(i as int));
                assert forall|a: int, b: int|
                    0 <= a < b < self.keyboards@.len() implies path_views(self.keyboards@)[a]
                    != path_views(self.keyboards@)[b] by {
                    if a >= i {
                        assert(before[a + 1] != before[b + 1]);
                    } else if b >= i {
                        assert(before[a] != before[b + 1]);
                    } else {
                        assert(before[a] != before[b]);
                    }
                }
            }
        }
    }

    /// Begins shutting down: readers are to stop, every device is dropped, nothing is held,
    /// and the reports returned, to be written last, leave the downstream host with no button,
    /// key or modifier down. This works whenever a configuration was given, also after an
    /// earlier shutdown; before any `start` there is no gadget output to write to.
    pub fn stop(&mut self) -> (r: Result<ShutdownReports, PassthroughError>)
        requires
            old(self).wf(),
        ensures
            final(self).wf(),
            old(self).gadget() is Some ==> {
                &&& r matches Ok(reports) && reports.mouse@ == mouse_report_bytes(neutral_event())
                    && reports.keyboard@ == keyboard_report_bytes(Seq::empty(), Seq::empty())
                &&& final(self).spec_phase() == Phase::Stopping
                &&& final(self).mice().len() == 0
                &&& final(self).open_keyboards().len() == 0
                &&& final(self).held().keys().len() == 0
                &&& final(self).held().modifiers().len() == 0
                &&& final(self).configured_mice() == old(self).configured_mice()
                &&& final(self).gadget() == old(self).gadget()
                &&& final(self).configured_keyboards() == old(self).configured_keyboards()
            },
            old(self).gadget() is None ==> r == Err::<ShutdownReports, _>(
                PassthroughError::NotStarted,
            ) && *final(self) == *old(self),
    {
        if self.specification.is_none() {
            return Err(PassthroughError::NotStarted);
        }
        self.phase = Phase::Stopping;
        self.mouses = Vec::new();
        self.keyboards = Vec::new();
        self.keyboard_state = KeyboardState::new();
        proof {
            assert(path_views(self.keyboards@) =~= Seq::empty());
        }
        Ok(
            ShutdownReports {
                mouse: mouse_report(&MouseRaw::default()),
                keyboard: keyboard_report(&self.keyboard_state),
            },
        )
    }

    /// Ends a shutdown once its reports were written (or failed to be).
    pub fn finish_stop(&mut self) -> (r: Result<(), PassthroughError>)
        requires
            old(self).wf(),
        ensures
            final(self).wf(),
            old(self).spec_phase() == Phase::Stopping ==> r is Ok && final(self).spec_phase()
                == Phase::Stopped && final(self).mice() == old(self).mice()
                && final(self).open_keyboards() == old(self).open_keyboards() && final(self).held()
                == old(self).held() && final(self).configured_mice() == old(self).configured_mice()
                && final(self).configured_keyboards() == old(self).configured_keyboards()
                && final(self).gadget() == old(self).gadget(),
            old(self).spec_phase() != Phase::Stopping ==> r == Err::<(), _>(
                PassthroughError::NotStopping,
            ) && *final(self) == *old(self),
    {
        if self.phase != Phase::Stopping {
            return Err(PassthroughError::NotStopping);
        }
        self.phase = Phase::Stopped;
        Ok(())
    }
}

} // verus!

use vstd::prelude::*;
use vstd::string::StringSliceAdditionalSpecFns;

verus! {

/// A global object of the display server that the client binds.
#[derive(Clone, Copy, Debug, PartialEq, Eq, Structural)]
pub enum GlobalKind {
    Compositor,
    Shm,
    Seat,
    Output,
    WmBase,
}

impl GlobalKind {
    /// The interface name under which the registry advertises the global.
    pub open spec fn interface_name(self) -> Seq<u8> {
        match self {
            GlobalKind::Compositor => "wl_compositor".spec_bytes(),
            GlobalKind::Shm => "wl_shm".spec_bytes(),
            GlobalKind::Seat => "wl_seat".spec_bytes(),
            GlobalKind::Output => "wl_output".spec_bytes(),
            GlobalKind::WmBase => "xdg_wm_base".spec_bytes(),
        }
    }

    /// The lowest interface version the client works with; it binds at
    /// exactly this version.
    pub open spec fn min_version(self) -> u32 {
        match self {
            GlobalKind::Compositor => 4,
            GlobalKind::Shm => 1,
            GlobalKind::Seat => 3,
            GlobalKind::Output => 2,
            GlobalKind::WmBase => 1,
        }
    }

    pub fn required_version(&self) -> (r: u32)
        ensures
            r == self.min_version(),
    {
        match self {
            GlobalKind::Compositor => 4,
            GlobalKind::Shm => 1,
            GlobalKind::Seat => 3,
            GlobalKind::Output => 2,
            GlobalKind::WmBase => 1,
        }
    }
}

/// The kind of global advertised under `name`, if the client knows it.
pub open spec fn kind_of_interface(name: Seq<u8>) -> Option<GlobalKind> {
    if name == GlobalKind::Compositor.interface_name() {
        Some(GlobalKind::Compositor)
    } else if name == GlobalKind::Shm.interface_name() {
        Some(GlobalKind::Shm)
    } else if name == GlobalKind::Seat.interface_name() {
        Some(GlobalKind::Seat)
    } else if name == GlobalKind::Output.interface_name() {
        Some(GlobalKind::Output)
    } else if name == GlobalKind::WmBase.interface_name() {
        Some(GlobalKind::WmBase)
    } else {
        None
    }
}

/// A bind request: the global's kind and the version to bind it at.
#[derive(Clone, Copy, Debug, PartialEq, Eq, Structural)]
pub struct Binding {
    pub kind: GlobalKind,
    pub version: u32,
}

/// Why an advertised global cannot be used.
#[derive(Clone, Copy, Debug, PartialEq, Eq, Structural)]
pub enum RegistryError {
    /// The server offers the interface below the version the client needs.
    VersionTooLow { kind: GlobalKind, advertised: u32, required: u32 },
}

/// What the client does with a global advertised under `name` at `version`:
/// nothing for an unknown interface, a bind at the minimum version for a
/// known one, and an error for a known one offered below that version.
pub open spec fn registry_decision(name: Seq<u8>, version: u32) -> Result<
    Option<Binding>,
    RegistryError,
> {
    match kind_of_interface(name) {
        None => Ok(None),
        Some(kind) => if version < kind.min_version() {
            Err(RegistryError::VersionTooLow { kind, advertised: version, required: kind.min_version() })
        } else {
            Ok(Some(Binding { kind, version: kind.min_version() }))
        },
    }
}

fn bytes_equal(a: &[u8], b: &[u8]) -> (r: bool)
    ensures
        r == (a@ == b@),
{
    if a.len() != b.len() {
        return false;
    }
    let mut i: usize = 0;
    while i < a.len()
        invariant
            a@.len() == b@.len(),
            0 <= i <= a@.len(),
            forall|j: int| 0 <= j < i ==> a@[j] == b@[j],
        decreases a@.len() - i,
    {
        if a[i] != b[i] {
            return false;
        }
        i = i + 1;
    }
    assert(a@ =~= b@);
    true
}

/// Recognises the interface names of the globals the client binds.
pub fn classify_interface(name: &[u8]) -> (r: Option<GlobalKind>)
    ensures
        r == kind_of_interface(name@),
{
    if bytes_equal(name, "wl_compositor".as_bytes()) {
        Some(GlobalKind::Compositor)
    } else if bytes_equal(name, "wl_shm".as_bytes()) {
        Some(GlobalKind::Shm)
    } else if bytes_equal(name, "wl_seat".as_bytes()) {
        Some(GlobalKind::Seat)
    } else if bytes_equal(name, "wl_output".as_bytes()) {
        Some(GlobalKind::Output)
    } else if bytes_equal(name, "xdg_wm_base".as_bytes()) {
        Some(GlobalKind::WmBase)
    } else {
        None
    }
}

/// Decides what to do with a global the registry advertises.
pub fn on_registry_global(interface_name: &[u8], interface_version: u32) -> (r: Result<
    Option<Binding>,
    RegistryError,
>)
    ensures
        r == registry_decision(interface_name@, interface_version),
{
    match classify_interface(interface_name) {
        None => Ok(None),
        Some(kind) => {
            let required = kind.required_version();
            if interface_version < required {
                Err(RegistryError::VersionTooLow { kind, advertised: interface_version, required })
            } else {
                Ok(Some(Binding { kind, version: required }))
            }
        },
    }
}

} // verus!

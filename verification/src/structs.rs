use vstd::prelude::*;

verus! {

/// A size in the units the container uses, as exchanged over `IOleObject::GetExtent`.
#[derive(Clone, Copy, PartialEq, Eq, Structural, Debug)]
pub struct Size {
    pub width: u32,
    pub height: u32,
}

/// The `DVASPECT` values a container may ask about.
#[derive(Clone, Copy, PartialEq, Eq, Structural, Debug)]
pub enum DataViewAspect {
    Content,
    Thumbnail,
    Icon,
    DocPrin,
}

impl DataViewAspect {
    /// The numeric `DVASPECT` code of this aspect.
    pub open spec fn spec_abi_value(self) -> u32 {
        match self {
            DataViewAspect::Content => 0x01,
            DataViewAspect::Thumbnail => 0x02,
            DataViewAspect::Icon => 0x04,
            DataViewAspect::DocPrin => 0x08,
        }
    }

    /// The numeric `DVASPECT` code of this aspect, as it crosses the COM boundary.
    pub fn abi_value(&self) -> (r: u32)
        ensures
            r == self.spec_abi_value(),
    {
        match self {
            DataViewAspect::Content => 0x01,
            DataViewAspect::Thumbnail => 0x02,
            DataViewAspect::Icon => 0x04,
            DataViewAspect::DocPrin => 0x08,
        }
    }
}

/// OLE's `VARIANT_BOOL`: true is all bits set, false is zero.
#[derive(Clone, Copy, PartialEq, Eq, Structural, Debug)]
pub enum VariantBool {
    True,
    False,
}

impl VariantBool {
    pub open spec fn spec_abi_value(self) -> u16 {
        match self {
            VariantBool::True => 0xFFFF,
            VariantBool::False => 0x0000,
        }
    }

    /// The 16-bit value of this `VARIANT_BOOL` as it crosses the COM boundary.
    pub fn abi_value(&self) -> (r: u16)
        ensures
            r == self.spec_abi_value(),
    {
        match self {
            VariantBool::True => 0xFFFF,
            VariantBool::False => 0x0000,
        }
    }
}

pub open spec fn variant_bool_of(b: bool) -> VariantBool {
    if b { VariantBool::True } else { VariantBool::False }
}

pub open spec fn bool_of(v: VariantBool) -> bool {
    v.spec_abi_value() == 0xFFFF
}

impl From<bool> for VariantBool {
    fn from(var: bool) -> (r: VariantBool) {
        match var {
            true => VariantBool::True,
            false => VariantBool::False,
        }
    }
}

impl vstd::std_specs::convert::FromSpecImpl<bool> for VariantBool {
    open spec fn obeys_from_spec() -> bool {
        true
    }

    open spec fn from_spec(var: bool) -> VariantBool {
        variant_bool_of(var)
    }
}

impl From<VariantBool> for bool {
    fn from(var: VariantBool) -> (r: bool) {
        match var.abi_value() {
            0xFFFF => true,
            _ => false,
        }
    }
}

impl vstd::std_specs::convert::FromSpecImpl<VariantBool> for bool {
    open spec fn obeys_from_spec() -> bool {
        true
    }

    open spec fn from_spec(var: VariantBool) -> bool {
        bool_of(var)
    }
}

/// Converting a `bool` to a `VariantBool` and back gives the `bool` back.
pub proof fn lemma_bool_round_trip(b: bool)
    ensures
        bool_of(variant_bool_of(b)) == b,
{
}

/// Converting a `VariantBool` to a `bool` and back gives the `VariantBool` back.
pub proof fn lemma_variant_bool_round_trip(v: VariantBool)
    ensures
        variant_bool_of(bool_of(v)) == v,
{
}

/// The control's half of `IQuickActivate::QuickActivate`.
#[derive(Clone, Copy, PartialEq, Eq, Structural, Debug)]
pub struct QAControl {
    pub self_size: u32,
    pub misc_status: u32,
    pub view_status: u32,
    pub event_cookie: u32,
    pub prop_notify_cookie: u32,
    pub pointer_activation_policy: u32,
}

impl QAControl {
    /// Fills in the control's answer to `QuickActivate`: every field but the size the container
    /// wrote is zero.
    pub fn quick_activate(&mut self)
        ensures
            *final(self) == (QAControl {
                self_size: old(self).self_size,
                misc_status: 0,
                view_status: 0,
                event_cookie: 0,
                prop_notify_cookie: 0,
                pointer_activation_policy: 0,
            }),
    {
        self.misc_status = 0;
        self.view_status = 0;
        self.event_cookie = 0;
        self.prop_notify_cookie = 0;
        self.pointer_activation_policy = 0;
    }
}

/// A COM interface identifier.
#[derive(Clone, Copy)]
pub struct Guid {
    pub data1: u32,
    pub data2: u16,
    pub data3: u16,
    pub data4: [u8; 8],
}

/// `GUIDKIND_DEFAULT_SOURCE_DISP_IID`, the one kind that `IProvideClassInfo2::GetGUID` answers.
pub const GUIDKIND_DEFAULT_SOURCE_DISP_IID: u32 = 1;

/// {D30C1661-CDAF-11D0-8A3E-00C04FC9E26E}, given as the control's default source interface.
pub open spec fn is_default_source_iid(g: Guid) -> bool {
    &&& g.data1 == 0xD30C1661
    &&& g.data2 == 0xCDAF
    &&& g.data3 == 0x11D0
    &&& g.data4@ == seq![0x8Au8, 0x3Eu8, 0x00u8, 0xC0u8, 0x4Fu8, 0xC9u8, 0xE2u8, 0x6Eu8]
}

/// `IID_INotifyDBEvents` {DB526CC0-D188-11CD-AD48-00AA003C9CB6}, the only connection point BYOND
/// asks for.
pub open spec fn is_inotify_db_events_iid(g: Guid) -> bool {
    &&& g.data1 == 0xDB526CC0
    &&& g.data2 == 0xD188
    &&& g.data3 == 0x11CD
    &&& g.data4@ == seq![0xADu8, 0x48u8, 0x00u8, 0xAAu8, 0x00u8, 0x3Cu8, 0x9Cu8, 0xB6u8]
}

/// `IProvideClassInfo2::GetGUID`, which is only asked for the default source interface.
pub fn get_guid(kind: u32) -> (r: Guid)
    requires
        kind == GUIDKIND_DEFAULT_SOURCE_DISP_IID,
    ensures
        is_default_source_iid(r),
{
    let r = Guid {
        data1: 0xD30C1661,
        data2: 0xCDAF,
        data3: 0x11D0,
        data4: [0x8A, 0x3E, 0x00, 0xC0, 0x4F, 0xC9, 0xE2, 0x6E],
    };
    assert(r.data4@ =~= seq![0x8Au8, 0x3Eu8, 0x00u8, 0xC0u8, 0x4Fu8, 0xC9u8, 0xE2u8, 0x6Eu8]);
    r
}

/// `IConnectionPointContainer::FindConnectionPoint`: the control offers no connection points, so
/// the one BYOND asks for is refused with `CONNECT_E_NOCONNECTION`.
pub fn find_connection_point(riid: &Guid) -> (r: i32)
    requires
        is_inotify_db_events_iid(*riid),
    ensures
        r == crate::constants::CONNECT_E_NOCONNECTION,
{
    crate::constants::CONNECT_E_NOCONNECTION
}

} // verus!

use vstd::prelude::*;

verus! {

/// The lowercase hexadecimal digit for a value below sixteen.
pub open spec fn hex_digit(d: nat) -> char {
    if d < 10 {
        ((d + 48) as u8) as char
    } else {
        ((d + 87) as u8) as char
    }
}

/// Whether a character is one of `0-9` or `a-f`.
pub open spec fn is_lower_hex_char(c: char) -> bool {
    ('0' <= c && c <= '9') || ('a' <= c && c <= 'f')
}

/// Whether a string is exactly four lowercase hexadecimal digits.
pub open spec fn is_hex4(s: Seq<char>) -> bool {
    s.len() == 4 && forall|i: int| 0 <= i < 4 ==> #[trigger] is_lower_hex_char(s[i])
}

/// A 16-bit value written as four lowercase hexadecimal digits, most significant first.
pub open spec fn hex4(v: u16) -> Seq<char> {
    seq![
        hex_digit((v as nat / 4096) % 16),
        hex_digit((v as nat / 256) % 16),
        hex_digit((v as nat / 16) % 16),
        hex_digit(v as nat % 16),
    ]
}

fn digit_str(d: u16) -> (r: &'static str)
    requires
        d < 16,
    ensures
        r@ == seq![hex_digit(d as nat)],
{
    proof {
        reveal_strlit("0"); reveal_strlit("1"); reveal_strlit("2"); reveal_strlit("3");
        reveal_strlit("4"); reveal_strlit("5"); reveal_strlit("6"); reveal_strlit("7");
        reveal_strlit("8"); reveal_strlit("9"); reveal_strlit("a"); reveal_strlit("b");
        reveal_strlit("c"); reveal_strlit("d"); reveal_strlit("e"); reveal_strlit("f");
    }
    match d {
        0 => "0",
        1 => "1",
        2 => "2",
        3 => "3",
        4 => "4",
        5 => "5",
        6 => "6",
        7 => "7",
        8 => "8",
        9 => "9",
        10 => "a",
        11 => "b",
        12 => "c",
        13 => "d",
        14 => "e",
        _ => "f",
    }
}

/// Formats a 16-bit identifier as four lowercase, zero-padded hexadecimal digits.
pub fn format_hex4(v: u16) -> (r: String)
    ensures
        r@ == hex4(v),
        is_hex4(r@),
{
    let mut s = String::new();
    s.append(digit_str((v / 4096) % 16));
    s.append(digit_str((v / 256) % 16));
    s.append(digit_str((v / 16) % 16));
    s.append(digit_str(v % 16));
    proof {
        assert(s@ =~= hex4(v));
        lemma_hex4_is_hex4(v);
    }
    s
}

/// Every value formats to exactly four lowercase hexadecimal digits.
pub proof fn lemma_hex4_is_hex4(v: u16)
    ensures
        is_hex4(hex4(v)),
{
    let s = hex4(v);
    assert forall|i: int| 0 <= i < 4 implies #[trigger] is_lower_hex_char(s[i]) by {
        let d: nat = if i == 0 {
            (v as nat / 4096) % 16
        } else if i == 1 {
            (v as nat / 256) % 16
        } else if i == 2 {
            (v as nat / 16) % 16
        } else {
            v as nat % 16
        };
        assert(s[i] == hex_digit(d));
        assert(d < 16);
    }
}


/// Where a device sits on the host's device tree: its bus number and its address on that bus.
#[derive(Clone, Copy, Debug, PartialEq, Eq, Structural)]
pub struct Placement {
    pub bus: u8,
    pub address: u8,
}

/// What one enumeration reads of one attached device.
#[derive(Clone, Copy, Debug, PartialEq, Eq, Structural)]
pub struct RawDevice {
    pub placement: Placement,
    pub vendor_id: u16,
    pub product_id: u16,
}

/// An immutable snapshot of one enumerated device, as shown to the operator.
#[derive(Clone, Debug)]
pub struct DeviceIdentity {
    pub bus: u8,
    pub address: u8,
    pub vendor_id: String,
    pub product_id: String,
}

/// The mathematical value of a `DeviceIdentity`.
pub struct IdentityView {
    pub bus: u8,
    pub address: u8,
    pub vendor_id: Seq<char>,
    pub product_id: Seq<char>,
}

impl View for DeviceIdentity {
    type V = IdentityView;

    open spec fn view(&self) -> IdentityView {
        IdentityView {
            bus: self.bus,
            address: self.address,
            vendor_id: self.vendor_id@,
            product_id: self.product_id@,
        }
    }
}

/// The identity that a raw record is shown as.
pub open spec fn identity_of(r: RawDevice) -> IdentityView {
    IdentityView {
        bus: r.placement.bus,
        address: r.placement.address,
        vendor_id: hex4(r.vendor_id),
        product_id: hex4(r.product_id),
    }
}

/// The identities of a snapshot, one per record, in enumeration order.
pub open spec fn identities_of(raws: Seq<RawDevice>) -> Seq<IdentityView> {
    raws.map_values(|r: RawDevice| identity_of(r))
}

/// The placements of a snapshot, in enumeration order.
pub open spec fn placements_of(raws: Seq<RawDevice>) -> Seq<Placement> {
    raws.map_values(|r: RawDevice| r.placement)
}

/// Whether both identifier strings are four lowercase hexadecimal digits.
pub open spec fn well_formed_identity(v: IdentityView) -> bool {
    is_hex4(v.vendor_id) && is_hex4(v.product_id)
}

/// The index of the first placement equal to `(bus, address)`, if there is one.
pub open spec fn first_match(ps: Seq<Placement>, bus: u8, address: u8) -> Option<int>
    decreases ps.len(),
{
    if ps.len() == 0 {
        None
    } else if ps.last().bus == bus && ps.last().address == address && first_match(
        ps.drop_last(),
        bus,
        address,
    ) is None {
        Some(ps.len() - 1)
    } else {
        first_match(ps.drop_last(), bus, address)
    }
}

impl DeviceIdentity {
    /// Builds the identity that a raw record is shown as.
    pub fn from_raw(r: &RawDevice) -> (id: DeviceIdentity)
        ensures
            id@ == identity_of(*r),
    {
        DeviceIdentity {
            bus: r.placement.bus,
            address: r.placement.address,
            vendor_id: format_hex4(r.vendor_id),
            product_id: format_hex4(r.product_id),
        }
    }

    /// The placement that this identity was enumerated at.
    pub fn placement(&self) -> (p: Placement)
        ensures
            p.bus == self.bus,
            p.address == self.address,
    {
        Placement { bus: self.bus, address: self.address }
    }
}

/// Turns one enumeration snapshot into the identities shown to the operator, keeping its order.
pub fn identify(raws: &Vec<RawDevice>) -> (ids: Vec<DeviceIdentity>)
    ensures
        ids@.len() == raws@.len(),
        forall|i: int| 0 <= i < ids@.len() ==> #[trigger] ids@[i]@ == identity_of(raws@[i]),
        forall|i: int| 0 <= i < ids@.len() ==> well_formed_identity(#[trigger] ids@[i]@),
{
    let mut ids: Vec<DeviceIdentity> = Vec::new();
    let mut i: usize = 0;
    while i < raws.len()
        invariant
            i <= raws@.len(),
            ids@.len() == i,
            forall|j: int| 0 <= j < i ==> #[trigger] ids@[j]@ == identity_of(raws@[j]),
        decreases raws@.len() - i,
    {
        ids.push(DeviceIdentity::from_raw(&raws[i]));
        i = i + 1;
    }
    assert forall|i: int| 0 <= i < ids@.len() implies well_formed_identity(#[trigger] ids@[i]@) by {
        lemma_hex4_is_hex4(raws@[i].vendor_id);
        lemma_hex4_is_hex4(raws@[i].product_id);
    }
    ids
}

/// Finds the first placement equal to `(bus, address)` in a snapshot.
pub fn find_placement(ps: &Vec<Placement>, bus: u8, address: u8) -> (r: Option<usize>)
    ensures
        r matches Some(i) ==> first_match(ps@, bus, address) == Some(i as int),
        r is None ==> first_match(ps@, bus, address) is None,
        r matches Some(i) ==> i < ps@.len() && ps@[i as int] == (Placement { bus, address }),
        r is None <==> forall|j: int| 0 <= j < ps@.len() ==> #[trigger] ps@[j] != (Placement { bus, address }),
{
    let mut i: usize = 0;
    while i < ps.len()
        invariant
            i <= ps@.len(),
            first_match(ps@.subrange(0, i as int), bus, address) is None,
            forall|j: int| 0 <= j < i ==> #[trigger] ps@[j] != (Placement { bus, address }),
        decreases ps@.len() - i,
    {
        if ps[i].bus == bus && ps[i].address == address {
            proof {
                assert(ps@.subrange(0, i + 1).drop_last() =~= ps@.subrange(0, i as int));
                lemma_first_match_prefix(ps@, (i + 1) as int, bus, address);
            }
            return Some(i);
        }
        proof {
            assert(ps@.subrange(0, i + 1).drop_last() =~= ps@.subrange(0, i as int));
        }
        i = i + 1;
    }
    proof {
        assert(ps@.subrange(0, ps@.len() as int) =~= ps@);
    }
    None
}

/// Once a prefix holds a match, longer prefixes agree on the first one.
proof fn lemma_first_match_prefix(ps: Seq<Placement>, k: int, bus: u8, address: u8)
    requires
        0 <= k <= ps.len(),
        first_match(ps.subrange(0, k), bus, address) is Some,
    ensures
        first_match(ps, bus, address) == first_match(ps.subrange(0, k), bus, address),
    decreases ps.len() - k,
{
    if k < ps.len() {
        assert(ps.subrange(0, k + 1).drop_last() =~= ps.subrange(0, k));
        lemma_first_match_prefix(ps, k + 1, bus, address);
    } else {
        assert(ps.subrange(0, k) =~= ps);
    }
}


/// `first_match` finds a matching placement exactly when one exists.
pub proof fn lemma_first_match_exists(ps: Seq<Placement>, bus: u8, address: u8)
    ensures
        first_match(ps, bus, address) is None <==> forall|j: int|
            0 <= j < ps.len() ==> #[trigger] ps[j] != (Placement { bus, address }),
        first_match(ps, bus, address) matches Some(j) ==> 0 <= j < ps.len() && ps[j] == (Placement {
            bus,
            address,
        }),
    decreases ps.len(),
{
    if ps.len() > 0 {
        lemma_first_match_exists(ps.drop_last(), bus, address);
        assert forall|j: int| 0 <= j < ps.len() - 1 implies ps.drop_last()[j] == ps[j] by {}
    }
}

/// Every identity of an enumeration snapshot carries four lowercase hexadecimal digits as its
/// vendor and product identifiers.
pub proof fn lemma_snapshot_identifiers_are_hex(raws: Seq<RawDevice>)
    ensures
        forall|i: int| 0 <= i < raws.len() ==> well_formed_identity(#[trigger] identities_of(raws)[i]),
{
    assert forall|i: int| 0 <= i < raws.len() implies well_formed_identity(#[trigger] identities_of(raws)[i]) by {
        lemma_hex4_is_hex4(raws[i].vendor_id);
        lemma_hex4_is_hex4(raws[i].product_id);
    }
}

/// On the snapshot an enumeration was made from, locating the placement of any identity it
/// listed succeeds, at a record with that placement; locating a placement that no identity
/// carries finds nothing.
pub proof fn lemma_locate_after_enumerate(raws: Seq<RawDevice>, bus: u8, address: u8)
    ensures
        (exists|i: int| 0 <= i < raws.len() && #[trigger] identities_of(raws)[i].bus == bus
            && identities_of(raws)[i].address == address) ==> (first_match(placements_of(raws), bus, address) matches Some(j)
            && 0 <= j < raws.len() && raws[j].placement == (Placement { bus, address })),
        (forall|i: int| 0 <= i < raws.len() ==> !(#[trigger] identities_of(raws)[i].bus == bus
            && identities_of(raws)[i].address == address)) ==> first_match(placements_of(raws), bus, address) is None,
{
    let ps = placements_of(raws);
    lemma_first_match_exists(ps, bus, address);
    if exists|i: int| 0 <= i < raws.len() && #[trigger] identities_of(raws)[i].bus == bus
        && identities_of(raws)[i].address == address {
        let i = choose|i: int| 0 <= i < raws.len() && #[trigger] identities_of(raws)[i].bus == bus
            && identities_of(raws)[i].address == address;
        assert(ps[i] == (Placement { bus, address }));
    }
    if forall|i: int| 0 <= i < raws.len() ==> !(#[trigger] identities_of(raws)[i].bus == bus
        && identities_of(raws)[i].address == address) {
        assert forall|j: int| 0 <= j < ps.len() implies #[trigger] ps[j] != (Placement { bus, address }) by {
            assert(identities_of(raws)[j].bus == ps[j].bus);
        }
    }
}

} // verus!

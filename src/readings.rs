use vstd::prelude::*;

verus! {

/// The `type` of the production summary record that holds the inverters'
/// lifetime energy.
pub const INVERTERS_KIND: &'static str = "inverters";

/// One inverter's last report: its serial number and the bit pattern of its
/// watts.
pub struct InverterReading {
    pub serial_num: String,
    pub watts_bits: u64,
}

/// One record of the production summary: its `type` and the bit pattern of
/// its lifetime watt-hours.
pub struct ProductionSource {
    pub kind: String,
    pub wh_lifetime_bits: u64,
}

/// The bit pattern of `0.0`.
pub const ZERO_BITS: u64 = 0;

/// Whether `source` is the inverters' record.
pub open spec fn is_inverters(source: ProductionSource) -> bool {
    source.kind@ == INVERTERS_KIND@
}

/// The lifetime watt-hours of the first inverters' record in `sources`, or
/// zero where there is none.
pub open spec fn lifetime_of(sources: Seq<ProductionSource>) -> u64
    decreases sources.len(),
{
    if sources.len() == 0 {
        ZERO_BITS
    } else if is_inverters(sources[0]) {
        sources[0].wh_lifetime_bits
    } else {
        lifetime_of(sources.drop_first())
    }
}

/// `lifetime_of` is zero where no record is the inverters' one, and else the
/// value of the first that is.
proof fn lemma_lifetime_of(sources: Seq<ProductionSource>)
    ensures
        (forall|j: int| 0 <= j < sources.len() ==> !is_inverters(#[trigger] sources[j]))
            ==> lifetime_of(sources) == ZERO_BITS,
        forall|i: int|
            0 <= i < sources.len() && is_inverters(#[trigger] sources[i]) && (forall|j: int|
                0 <= j < i ==> !is_inverters(#[trigger] sources[j])) ==> lifetime_of(sources)
                == sources[i].wh_lifetime_bits,
    decreases sources.len(),
{
    if sources.len() > 0 {
        let rest = sources.drop_first();
        lemma_lifetime_of(rest);
        assert forall|j: int| 0 <= j < rest.len() implies rest[j] == sources[j + 1] by {}
        assert forall|i: int|
            0 <= i < sources.len() && is_inverters(#[trigger] sources[i]) && (forall|j: int|
                0 <= j < i ==> !is_inverters(#[trigger] sources[j])) implies lifetime_of(sources)
            == sources[i].wh_lifetime_bits by {
            if i > 0 {
                assert(rest[i - 1] == sources[i]);
                assert forall|j: int| 0 <= j < i - 1 implies !is_inverters(#[trigger] rest[j]) by {
                    assert(rest[j] == sources[j + 1]);
                }
            }
        }
        if forall|j: int| 0 <= j < sources.len() ==> !is_inverters(#[trigger] sources[j]) {
            assert(!is_inverters(sources[0]));
            assert forall|j: int| 0 <= j < rest.len() implies !is_inverters(#[trigger] rest[j]) by {
                assert(rest[j] == sources[j + 1]);
            }
        }
    }
}

/// The lifetime watt-hours that the production summary reports: the value of
/// the first record whose `type` is `"inverters"`, or zero where no record
/// has that type (nothing is taken to have been produced yet).
pub fn select_lifetime_watt_hours(sources: &Vec<ProductionSource>) -> (r: u64)
    ensures
        r == lifetime_of(sources@),
        (forall|j: int| 0 <= j < sources@.len() ==> !is_inverters(#[trigger] sources@[j])) ==> r
            == ZERO_BITS,
        forall|i: int|
            0 <= i < sources@.len() && is_inverters(#[trigger] sources@[i]) && (forall|j: int|
                0 <= j < i ==> !is_inverters(#[trigger] sources@[j])) ==> r
                == sources@[i].wh_lifetime_bits,
{
    let wanted = String::from_str(INVERTERS_KIND);
    let mut i: usize = 0;
    assert(sources@.skip(0) =~= sources@);
    while i < sources.len()
        invariant
            0 <= i <= sources@.len(),
            wanted@ == INVERTERS_KIND@,
            lifetime_of(sources@) == lifetime_of(sources@.skip(i as int)),
        decreases sources@.len() - i,
    {
        let source = &sources[i];
        if source.kind == wanted {
            assert(sources@.skip(i as int)[0] == sources@[i as int]);
            proof {
                lemma_lifetime_of(sources@);
            }
            return source.wh_lifetime_bits;
        }
        assert(sources@.skip(i as int).drop_first() =~= sources@.skip(i + 1));
        i = i + 1;
    }
    assert(sources@.skip(i as int).len() == 0);
    proof {
        lemma_lifetime_of(sources@);
    }
    ZERO_BITS
}

} // verus!

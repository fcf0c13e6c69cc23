use vstd::prelude::*;

use crate::error::ApiError;
use crate::readings::InverterReading;

verus! {

/// The serial-to-watts table that `readings` leave in `table` when each is
/// written in turn, a later report of a serial overwriting an earlier one.
pub open spec fn recorded(table: Map<Seq<char>, u64>, readings: Seq<InverterReading>) -> Map<
    Seq<char>,
    u64,
>
    decreases readings.len(),
{
    if readings.len() == 0 {
        table
    } else {
        recorded(table, readings.drop_last()).insert(
            readings.last().serial_num@,
            readings.last().watts_bits,
        )
    }
}

/// The table that a list of entries stands for.
pub open spec fn table_of(entries: Seq<InverterReading>) -> Map<Seq<char>, u64> {
    recorded(Map::empty(), entries)
}

/// No two entries share a serial number.
pub open spec fn serials_unique(entries: Seq<InverterReading>) -> bool {
    forall|i: int, j: int|
        #![trigger entries[i], entries[j]]
        0 <= i < j < entries.len() ==> entries[i].serial_num@ != entries[j].serial_num@
}

/// Whether some reading of `readings` is for serial `k`.
pub open spec fn reports(readings: Seq<InverterReading>, k: Seq<char>) -> bool {
    exists|i: int| 0 <= i < readings.len() && #[trigger] readings[i].serial_num@ == k
}

/// Whether `readings[i]` is the last report of its serial in `readings`.
pub open spec fn is_last_report(readings: Seq<InverterReading>, i: int) -> bool {
    forall|j: int| i < j < readings.len() ==> #[trigger] readings[j].serial_num@ != readings[i].serial_num@
}

/// Recording a scrape's readings over an earlier table: each serial that the
/// scrape reports takes the value of its last report, each serial that it
/// does not report keeps its earlier value, nothing is dropped, and nothing
/// appears that neither the table nor the scrape held.
pub proof fn lemma_rescrape_updates_without_pruning(
    previous: Map<Seq<char>, u64>,
    readings: Seq<InverterReading>,
)
    ensures
        forall|k: Seq<char>|
            previous.contains_key(k) ==> #[trigger] recorded(previous, readings).contains_key(k),
        forall|i: int|
            0 <= i < readings.len() ==> #[trigger] recorded(previous, readings).contains_key(
                readings[i].serial_num@,
            ),
        forall|i: int|
            0 <= i < readings.len() && is_last_report(readings, i) ==> #[trigger] recorded(
                previous,
                readings,
            ).contains_key(readings[i].serial_num@) && recorded(previous, readings)[readings[i].serial_num@]
                == readings[i].watts_bits,
        forall|k: Seq<char>|
            previous.contains_key(k) && !reports(readings, k) ==> #[trigger] recorded(
                previous,
                readings,
            )[k] == previous[k],
        forall|k: Seq<char>|
            #[trigger] recorded(previous, readings).contains_key(k) ==> previous.contains_key(k)
                || reports(readings, k),
    decreases readings.len(),
{
    if readings.len() > 0 {
        let d = readings.drop_last();
        let last = readings.last();
        let n = readings.len() - 1;
        lemma_rescrape_updates_without_pruning(previous, d);
        assert(recorded(previous, readings) == recorded(previous, d).insert(
            last.serial_num@,
            last.watts_bits,
        ));
        assert forall|i: int| 0 <= i < readings.len() && is_last_report(readings, i) implies #[trigger] recorded(
            previous,
            readings,
        ).contains_key(readings[i].serial_num@) && recorded(previous, readings)[readings[i].serial_num@]
            == readings[i].watts_bits by {
            if i < n {
                assert(readings[n].serial_num@ != readings[i].serial_num@);
                assert(d[i] == readings[i]);
                assert(recorded(previous, d).contains_key(d[i].serial_num@));
                assert(d[i] == readings[i]);
                assert forall|j: int| i < j < d.len() implies #[trigger] d[j].serial_num@
                    != d[i].serial_num@ by {
                    assert(d[j] == readings[j]);
                    assert(readings[j].serial_num@ != readings[i].serial_num@);
                }
                assert(is_last_report(d, i));
            }
        }
        assert forall|i: int| 0 <= i < readings.len() implies #[trigger] recorded(
            previous,
            readings,
        ).contains_key(readings[i].serial_num@) by {
            if i < n {
                assert(d[i] == readings[i]);
                assert(recorded(previous, d).contains_key(d[i].serial_num@));
            }
        }
        assert forall|k: Seq<char>|
            previous.contains_key(k) && !reports(readings, k) implies #[trigger] recorded(
            previous,
            readings,
        )[k] == previous[k] by {
            assert(readings[n].serial_num@ != k);
            if reports(d, k) {
                let i = choose|i: int| 0 <= i < d.len() && #[trigger] d[i].serial_num@ == k;
                assert(readings[i] == d[i]);
            }
        }
        assert forall|k: Seq<char>| #[trigger]
            recorded(previous, readings).contains_key(k) implies previous.contains_key(k)
            || reports(readings, k) by {
            if k == last.serial_num@ {
                assert(readings[n].serial_num@ == k);
            } else if reports(d, k) {
                let i = choose|i: int| 0 <= i < d.len() && #[trigger] d[i].serial_num@ == k;
                assert(readings[i] == d[i]);
            }
        }
    }
}

/// What `table_of` tells of its entries: every entry's serial is a key, every
/// key is some entry's serial, and with unique serials each entry's value is
/// the one stored.
proof fn lemma_table_of(entries: Seq<InverterReading>)
    ensures
        forall|i: int|
            0 <= i < entries.len() ==> #[trigger] table_of(entries).contains_key(
                entries[i].serial_num@,
            ),
        forall|k: Seq<char>| #[trigger] table_of(entries).contains_key(k) ==> reports(entries, k),
        serials_unique(entries) ==> forall|i: int|
            0 <= i < entries.len() ==> #[trigger] table_of(entries)[entries[i].serial_num@]
                == entries[i].watts_bits,
{
    lemma_rescrape_updates_without_pruning(Map::empty(), entries);
    if serials_unique(entries) {
        assert forall|i: int| 0 <= i < entries.len() implies #[trigger] table_of(
            entries,
        )[entries[i].serial_num@] == entries[i].watts_bits by {
            assert forall|j: int| i < j < entries.len() implies #[trigger] entries[j].serial_num@
                != entries[i].serial_num@ by {
                assert(entries[i].serial_num@ != entries[j].serial_num@);
            }
            assert(is_last_report(entries, i));
            assert(recorded(Map::empty(), entries).contains_key(entries[i].serial_num@));
        }
    }
}

/// Overwriting the entry of an existing serial writes its value in the table.
proof fn lemma_overwrite_entry(entries: Seq<InverterReading>, j: int, entry: InverterReading)
    requires
        serials_unique(entries),
        0 <= j < entries.len(),
        entry.serial_num@ == entries[j].serial_num@,
    ensures
        serials_unique(entries.update(j, entry)),
        table_of(entries.update(j, entry)) == table_of(entries).insert(
            entry.serial_num@,
            entry.watts_bits,
        ),
{
    let e2 = entries.update(j, entry);
    assert forall|a: int, b: int|
        #![trigger e2[a], e2[b]]
        0 <= a < b < e2.len() implies e2[a].serial_num@ != e2[b].serial_num@ by {
        assert(entries[a].serial_num@ != entries[b].serial_num@);
    }
    lemma_table_of(entries);
    lemma_table_of(e2);
    let t1 = table_of(entries).insert(entry.serial_num@, entry.watts_bits);
    let t2 = table_of(e2);
    assert forall|k: Seq<char>| #[trigger] t2.contains_key(k) <==> t1.contains_key(k) by {
        if t2.contains_key(k) {
            let i = choose|i: int| 0 <= i < e2.len() && #[trigger] e2[i].serial_num@ == k;
            if i != j {
                assert(entries[i] == e2[i]);
            }
        }
        if t1.contains_key(k) && k != entry.serial_num@ {
            let i = choose|i: int| 0 <= i < entries.len() && #[trigger] entries[i].serial_num@ == k;
            assert(e2[i] == entries[i]);
        }
        if k == entry.serial_num@ {
            assert(e2[j].serial_num@ == k);
        }
    }
    assert forall|k: Seq<char>| #[trigger] t2.contains_key(k) implies t2[k] == t1[k] by {
        let i = choose|i: int| 0 <= i < e2.len() && #[trigger] e2[i].serial_num@ == k;
        if i != j {
            assert(entries[i] == e2[i]);
            assert(entries[i].serial_num@ != entries[j].serial_num@);
        }
    }
    assert(t2 =~= t1);
}

/// Appending an entry for a new serial writes its value in the table.
proof fn lemma_append_entry(entries: Seq<InverterReading>, entry: InverterReading)
    requires
        serials_unique(entries),
        !reports(entries, entry.serial_num@),
    ensures
        serials_unique(entries.push(entry)),
        table_of(entries.push(entry)) == table_of(entries).insert(
            entry.serial_num@,
            entry.watts_bits,
        ),
{
    let e2 = entries.push(entry);
    assert(e2.drop_last() =~= entries);
    assert forall|a: int, b: int|
        #![trigger e2[a], e2[b]]
        0 <= a < b < e2.len() implies e2[a].serial_num@ != e2[b].serial_num@ by {
        assert(e2[a] == entries[a]);
        if b < entries.len() {
            assert(e2[b] == entries[b]);
            assert(entries[a].serial_num@ != entries[b].serial_num@);
        }
    }
}

/// The position of the entry for `serial`, if there is one.
fn find_serial(entries: &Vec<InverterReading>, serial: &String) -> (r: Option<usize>)
    ensures
        r is Some ==> r->Some_0 < entries@.len() && entries@[r->Some_0 as int].serial_num@
            == serial@,
        r is None ==> !reports(entries@, serial@),
{
    let mut i: usize = 0;
    while i < entries.len()
        invariant
            i <= entries@.len(),
            forall|j: int| 0 <= j < i ==> #[trigger] entries@[j].serial_num@ != serial@,
        decreases entries@.len() - i,
    {
        if entries[i].serial_num == *serial {
            return Some(i);
        }
        i = i + 1;
    }
    None
}

/// The readings that the last scrapes left, as the exporter exposes them: the
/// current production, each inverter's last known production, and the
/// lifetime energy. Values are bit patterns of the device's numbers.
///
/// Inverters are never removed: one that stops reporting keeps its last
/// value. Each scrape sets the lifetime value outright, since the device
/// already reports a running total.
pub struct ExporterMetrics {
    production_watts_bits: u64,
    inverters: Vec<InverterReading>,
    lifetime_bits: u64,
}

/// The error that fails a scrape, if any: the first failed fetch, taken in
/// the order production, inverters, lifetime.
pub open spec fn scrape_error(
    production: Result<u64, ApiError>,
    inverters: Result<Vec<InverterReading>, ApiError>,
    lifetime: Result<u64, ApiError>,
) -> Option<ApiError> {
    if production is Err {
        Some(production->Err_0)
    } else if inverters is Err {
        Some(inverters->Err_0)
    } else if lifetime is Err {
        Some(lifetime->Err_0)
    } else {
        None
    }
}

impl ExporterMetrics {
    /// The store's own invariant.
    pub closed spec fn wf(&self) -> bool {
        serials_unique(self.inverters@)
    }

    /// The current production.
    pub closed spec fn spec_production_watts(&self) -> u64 {
        self.production_watts_bits
    }

    /// Each inverter's last known production, by serial number.
    pub closed spec fn spec_inverter_watts(&self) -> Map<Seq<char>, u64> {
        table_of(self.inverters@)
    }

    /// The lifetime energy.
    pub closed spec fn spec_lifetime_watt_hours(&self) -> u64 {
        self.lifetime_bits
    }

    /// A store before any scrape: zeros and no inverters.
    pub fn new() -> (r: Self)
        ensures
            r.wf(),
            r.spec_production_watts() == 0,
            r.spec_inverter_watts() == Map::<Seq<char>, u64>::empty(),
            r.spec_lifetime_watt_hours() == 0,
    {
        ExporterMetrics { production_watts_bits: 0, inverters: Vec::new(), lifetime_bits: 0 }
    }

    /// The current production.
    pub fn production_watts(&self) -> (r: u64)
        ensures
            r == self.spec_production_watts(),
    {
        self.production_watts_bits
    }

    /// The lifetime energy.
    pub fn lifetime_watt_hours(&self) -> (r: u64)
        ensures
            r == self.spec_lifetime_watt_hours(),
    {
        self.lifetime_bits
    }

    /// The last known production of the inverter with serial number `serial`.
    pub fn inverter_watts(&self, serial: &String) -> (r: Option<u64>)
        requires
            self.wf(),
        ensures
            r is Some <==> self.spec_inverter_watts().contains_key(serial@),
            r is Some ==> r->Some_0 == self.spec_inverter_watts()[serial@],
    {
        proof {
            lemma_table_of(self.inverters@);
        }
        match find_serial(&self.inverters, serial) {
            Some(j) => Some(self.inverters[j].watts_bits),
            None => None,
        }
    }

    /// The inverters' entries, one per serial number.
    pub fn inverter_entries(&self) -> (r: &Vec<InverterReading>)
        requires
            self.wf(),
        ensures
            serials_unique(r@),
            table_of(r@) == self.spec_inverter_watts(),
    {
        &self.inverters
    }

    /// Writes one reading.
    fn record_one(&mut self, reading: &InverterReading)
        requires
            old(self).wf(),
        ensures
            final(self).wf(),
            final(self).spec_inverter_watts() == old(self).spec_inverter_watts().insert(
                reading.serial_num@,
                reading.watts_bits,
            ),
            final(self).production_watts_bits == old(self).production_watts_bits,
            final(self).lifetime_bits == old(self).lifetime_bits,
    {
        let entry = InverterReading {
            serial_num: reading.serial_num.clone(),
            watts_bits: reading.watts_bits,
        };
        match find_serial(&self.inverters, &reading.serial_num) {
            Some(j) => {
                proof {
                    lemma_overwrite_entry(self.inverters@, j as int, entry);
                }
                self.inverters.set(j, entry);
            },
            None => {
                proof {
                    lemma_append_entry(self.inverters@, entry);
                }
                self.inverters.push(entry);
            },
        }
    }

    /// Writes each of `readings` in turn: a serial seen before takes its new
    /// value, a new serial is added, and serials absent from `readings` keep
    /// theirs.
    pub fn record_inverters(&mut self, readings: &Vec<InverterReading>)
        requires
            old(self).wf(),
        ensures
            final(self).wf(),
            final(self).spec_inverter_watts() == recorded(
                old(self).spec_inverter_watts(),
                readings@,
            ),
            final(self).spec_production_watts() == old(self).spec_production_watts(),
            final(self).spec_lifetime_watt_hours() == old(self).spec_lifetime_watt_hours(),
    {
        let mut i: usize = 0;
        while i < readings.len()
            invariant
                i <= readings@.len(),
                self.wf(),
                self.spec_inverter_watts() == recorded(
                    old(self).spec_inverter_watts(),
                    readings@.take(i as int),
                ),
                self.production_watts_bits == old(self).production_watts_bits,
                self.lifetime_bits == old(self).lifetime_bits,
            decreases readings@.len() - i,
        {
            self.record_one(&readings[i]);
            assert(readings@.take(i + 1).drop_last() =~= readings@.take(i as int));
            i = i + 1;
        }
        assert(readings@.take(i as int) =~= readings@);
    }

    /// Writes the outcome of one scrape's three fetches. Where any failed, the
    /// scrape fails with the first error (see `scrape_error`) and nothing is
    /// written, so that the failure is seen rather than a partial update;
    /// else the production and lifetime values are set and the inverters'
    /// readings recorded.
    pub fn record_scrape(
        &mut self,
        production: Result<u64, ApiError>,
        inverters: Result<Vec<InverterReading>, ApiError>,
        lifetime: Result<u64, ApiError>,
    ) -> (r: Result<(), ApiError>)
        requires
            old(self).wf(),
        ensures
            final(self).wf(),
            scrape_error(production, inverters, lifetime) is Some ==> r == Err::<(), ApiError>(
                scrape_error(production, inverters, lifetime)->Some_0,
            ) && *final(self) == *old(self),
            scrape_error(production, inverters, lifetime) is None ==> r is Ok
                && final(self).spec_production_watts() == production->Ok_0
                && final(self).spec_inverter_watts() == recorded(
                old(self).spec_inverter_watts(),
                inverters->Ok_0@,
            ) && final(self).spec_lifetime_watt_hours() == lifetime->Ok_0,
    {
        match (production, inverters, lifetime) {
            (Err(e), _, _) => Err(e),
            (Ok(_), Err(e), _) => Err(e),
            (Ok(_), Ok(_), Err(e)) => Err(e),
            (Ok(p), Ok(readings), Ok(l)) => {
                self.record_inverters(&readings);
                self.production_watts_bits = p;
                self.lifetime_bits = l;
                Ok(())
            },
        }
    }
}

} // verus!

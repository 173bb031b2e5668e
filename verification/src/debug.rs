//! Debugging output: the values of registers or addresses in several situations,
//! gathered into a table with one row per register or address and one column per
//! situation.

use vstd::prelude::*;

use std::collections::BTreeMap;

use crate::text::text;

verus! {

/// Something whose registers can be shown, by name, for debugging.
pub trait Debuggable {
    /// The values to show, by register or address name.
    fn get_debug_values(&self) -> BTreeMap<&str, String>;
}

/// Why debugging output is shown: a read or a write of an I/O address, or the
/// program counter reaching an address.
#[derive(Clone, Copy, Debug, PartialEq, Eq, Structural)]
pub enum DebugReason {
    IORead(u16),
    IOWrite(u16, u8),
    PC(u16),
}

/// One row of the table: a register or address, and its value in each situation.
pub struct DebugRow {
    pub header: String,
    pub cells: Vec<(String, String)>,
}

/// The table of debugging values.
pub struct OutputDebug {
    pub debug_reason: DebugReason,
    pub situations: Vec<String>,
    pub values: Vec<DebugRow>,
}

/// The values of one row, by situation; a later cell for a situation wins.
pub open spec fn cells_map(cells: Seq<(String, String)>) -> Map<Seq<char>, Seq<char>>
    decreases cells.len(),
{
    if cells.len() == 0 {
        Map::empty()
    } else {
        cells_map(cells.drop_last()).insert(cells.last().0@, cells.last().1@)
    }
}

/// The table the rows hold: each row's header mapped to its values by situation.
pub open spec fn rows_map(rows: Seq<DebugRow>) -> Map<Seq<char>, Map<Seq<char>, Seq<char>>>
    decreases rows.len(),
{
    if rows.len() == 0 {
        Map::empty()
    } else {
        rows_map(rows.drop_last()).insert(rows.last().header@, cells_map(rows.last().cells@))
    }
}

/// Whether no two rows share a header.
pub open spec fn distinct_headers(rows: Seq<DebugRow>) -> bool {
    forall|i: int, j: int| 0 <= i < j < rows.len() ==> rows[i].header@ != rows[j].header@
}

/// The table after recording, for situation `situation`, each named value in order:
/// the row of that name gets the value in that situation, a new row if there was none.
pub open spec fn with_values(
    table: Map<Seq<char>, Map<Seq<char>, Seq<char>>>,
    situation: Seq<char>,
    values: Seq<(&str, String)>,
) -> Map<Seq<char>, Map<Seq<char>, Seq<char>>>
    decreases values.len(),
{
    if values.len() == 0 {
        table
    } else {
        let before = with_values(table, situation, values.drop_last());
        let name = values.last().0@;
        let row = if before.contains_key(name) { before[name] } else { Map::empty() };
        before.insert(name, row.insert(situation, values.last().1@))
    }
}

/// A row's header is in the table exactly when some row has it.
proof fn lemma_rows_map_contains(rows: Seq<DebugRow>, name: Seq<char>)
    ensures
        rows_map(rows).contains_key(name) <==> exists|k: int| 0 <= k < rows.len() && rows[k].header@ == name,
    decreases rows.len(),
{
    if rows.len() > 0 {
        let rest = rows.drop_last();
        lemma_rows_map_contains(rest, name);
        if rows_map(rows).contains_key(name) && rows.last().header@ != name {
            let k = choose|k: int| 0 <= k < rest.len() && rest[k].header@ == name;
            assert(rows[k].header@ == name);
        }
        if exists|k: int| 0 <= k < rows.len() && rows[k].header@ == name {
            let k = choose|k: int| 0 <= k < rows.len() && rows[k].header@ == name;
            if k < rows.len() - 1 {
                assert(rest[k].header@ == name);
            }
        }
    }
}

/// With distinct headers, the table maps a row's header to that row's values.
proof fn lemma_rows_map_index(rows: Seq<DebugRow>, j: int)
    requires
        distinct_headers(rows),
        0 <= j < rows.len(),
    ensures
        rows_map(rows)[rows[j].header@] == cells_map(rows[j].cells@),
    decreases rows.len(),
{
    if j < rows.len() - 1 {
        let rest = rows.drop_last();
        assert(distinct_headers(rest));
        assert(rest[j] == rows[j]);
        lemma_rows_map_index(rest, j);
    }
}

/// Appending a row adds its header and values to the table.
proof fn lemma_rows_map_push(rows: Seq<DebugRow>, row: DebugRow)
    ensures
        rows_map(rows.push(row)) == rows_map(rows).insert(row.header@, cells_map(row.cells@)),
{
    assert(rows.push(row).drop_last() =~= rows);
}

/// With distinct headers, replacing a row by one with the same header replaces that
/// header's values in the table.
proof fn lemma_rows_map_update(rows: Seq<DebugRow>, j: int, row: DebugRow)
    requires
        distinct_headers(rows),
        0 <= j < rows.len(),
        row.header@ == rows[j].header@,
    ensures
        rows_map(rows.update(j, row)) == rows_map(rows).insert(row.header@, cells_map(row.cells@)),
    decreases rows.len(),
{
    let updated = rows.update(j, row);
    let rest = rows.drop_last();
    if j == rows.len() - 1 {
        assert(updated.drop_last() =~= rest);
        assert(rows_map(updated) =~= rows_map(rows).insert(row.header@, cells_map(row.cells@)));
    } else {
        assert(distinct_headers(rest));
        lemma_rows_map_update(rest, j, row);
        assert(updated.drop_last() =~= rest.update(j, row));
        assert(rows.last().header@ != row.header@);
        assert(rows_map(updated) =~= rows_map(rows).insert(row.header@, cells_map(row.cells@)));
    }
}

impl OutputDebug {
    /// The table of values: each register or address name mapped to its values by situation.
    pub open spec fn table(self) -> Map<Seq<char>, Map<Seq<char>, Seq<char>>> {
        rows_map(self.values@)
    }

    /// No two rows share a name.
    pub open spec fn wf(self) -> bool {
        distinct_headers(self.values@)
    }

    /// An empty table, shown for `debug_reason`.
    pub fn new_with_reason(debug_reason: DebugReason) -> (r: Self)
        ensures
            r.debug_reason == debug_reason,
            r.situations@.len() == 0,
            r.values@.len() == 0,
            r.table() == Map::<Seq<char>, Map<Seq<char>, Seq<char>>>::empty(),
            r.wf(),
    {
        Self { debug_reason, situations: Vec::new(), values: Vec::new() }
    }

    /// Records a situation: it becomes the last column, and each named value goes into
    /// the row of that name, a new row if there is none yet.
    pub fn push_situation(&mut self, situation: &str, values: Vec<(&str, String)>)
        requires
            old(self).wf(),
        ensures
            final(self).wf(),
            final(self).debug_reason == old(self).debug_reason,
            final(self).situations@.len() == old(self).situations@.len() + 1,
            final(self).situations@.drop_last() == old(self).situations@,
            final(self).situations@.last()@ == situation@,
            final(self).table() == with_values(old(self).table(), situation@, values@),
    {
        self.situations.push(text(situation));

        let ghost start = rows_map(self.values@);
        let ghost situations = self.situations@;
        let mut i: usize = 0;
        while i < values.len()
            invariant
                0 <= i <= values.len(),
                self.debug_reason == old(self).debug_reason,
                self.situations@ == situations,
                distinct_headers(self.values@),
                rows_map(self.values@) == with_values(start, situation@, values@.take(i as int)),
            decreases values.len() - i,
        {
            proof {
                assert(values@.take(i + 1).drop_last() =~= values@.take(i as int));
                assert(values@.take(i + 1).last() == values@[i as int]);
            }
            let name: String = text(values[i].0);
            let value: String = values[i].1.clone();
            let ghost before = rows_map(self.values@);
            let ghost expected = before.insert(
                name@,
                (if before.contains_key(name@) { before[name@] } else { Map::empty() }).insert(situation@, value@),
            );
            assert(with_values(start, situation@, values@.take(i + 1)) == expected);

            let mut j: usize = 0;
            while j < self.values.len() && !(self.values[j].header == name)
                invariant
                    0 <= j <= self.values.len(),
                    forall|k: int| 0 <= k < j ==> self.values@[k].header@ != name@,
                decreases self.values.len() - j,
            {
                j = j + 1;
            }

            proof { lemma_rows_map_contains(self.values@, name@); }

            if j < self.values.len() {
                proof { lemma_rows_map_index(self.values@, j as int); }
                let ghost rows = self.values@;
                let mut row: DebugRow = self.values.remove(j);
                let ghost old_cells = row.cells@;
                row.cells.push((text(situation), value));
                proof {
                    assert(row.cells@.drop_last() =~= old_cells);
                    lemma_rows_map_update(rows, j as int, row);
                    assert(rows.remove(j as int).insert(j as int, row) =~= rows.update(j as int, row));
                }
                self.values.insert(j, row);
                assert(rows_map(self.values@) =~= expected);
            } else {
                let mut cells: Vec<(String, String)> = Vec::new();
                let situation_text: String = text(situation);
                cells.push((situation_text, value));
                assert(cells_map(Seq::<(String, String)>::empty()) == Map::<Seq<char>, Seq<char>>::empty());
                let row: DebugRow = DebugRow { header: name, cells };
                proof {
                    assert(cells@.drop_last() =~= Seq::<(String, String)>::empty());
                    assert(cells_map(cells@) =~= Map::<Seq<char>, Seq<char>>::empty().insert(situation@, value@));
                    lemma_rows_map_push(self.values@, row);
                }
                self.values.push(row);
                assert(rows_map(self.values@) =~= expected);
            }

            i = i + 1;
        }
        proof {
            assert(values@.take(values@.len() as int) =~= values@);
        }
    }
}

} // verus!

//! Controller configuration management and calibration-table editing.

use crate::table::Table3D;
use vstd::prelude::*;

verus! {

broadcast use vstd::seq_lib::group_seq_properties;

/// A calibration table being edited on the host, with the cells changed
/// since it was loaded.
pub struct TableEditor<T> {
    table_id: u8,
    table: Table3D<T, 16, 16>,
    modified_cells: Vec<(u8, u8)>,
}

impl<T> TableEditor<T> {
    #[verifier::type_invariant]
    spec fn cells_listed_once(self) -> bool {
        self.modified_cells@.no_duplicates()
    }
}

impl<T: Copy + Default> TableEditor<T> {
    /// The identifier of the table on the controller.
    pub closed spec fn id_of(&self) -> u8 {
        self.table_id
    }

    /// The table as edited.
    pub closed spec fn table_of(&self) -> Table3D<T, 16, 16> {
        self.table
    }

    /// The cells changed since the table was loaded.
    pub closed spec fn modified(&self) -> Set<(u8, u8)> {
        self.modified_cells@.to_set()
    }

    /// An editor for table `table_id`, holding a default table and no
    /// changed cells.
    pub fn new(table_id: u8) -> (e: Self)
        ensures
            e.id_of() == table_id,
            e.modified() =~= Set::<(u8, u8)>::empty(),
            exists|d: T|
                call_ensures(T::default, (), d) && e.table_of().axes_filled_with(d) && e.table_of().data_filled_with(d),
    {
        let table: Table3D<T, 16, 16> = Table3D::new();
        let ghost d = choose|d: T|
            call_ensures(T::default, (), d) && table.axes_filled_with(d) && table.data_filled_with(d);
        let e = TableEditor { table_id, table, modified_cells: Vec::new() };
        assert(e.modified() =~= Set::<(u8, u8)>::empty());
        assert(call_ensures(T::default, (), d) && e.table_of().axes_filled_with(d) && e.table_of().data_filled_with(d));
        e
    }

    /// The identifier of the table on the controller.
    pub fn table_id(&self) -> (id: u8)
        ensures
            id == self.id_of(),
    {
        self.table_id
    }

    /// The table as edited.
    pub fn table(&self) -> (t: &Table3D<T, 16, 16>)
        ensures
            *t == self.table_of(),
    {
        &self.table
    }

    /// The changed cells, each once.
    pub fn modified_cells(&self) -> (cells: Vec<(u8, u8)>)
        ensures
            cells@.to_set() == self.modified(),
            cells@.no_duplicates(),
    {
        proof {
            use_type_invariant(self);
        }
        Self::copy_cells(&self.modified_cells)
    }

    fn copy_cells(cells: &Vec<(u8, u8)>) -> (copy: Vec<(u8, u8)>)
        ensures
            copy@ == cells@,
    {
        let mut copy: Vec<(u8, u8)> = Vec::new();
        let mut i: usize = 0;
        while i < cells.len()
            invariant
                i <= cells.len(),
                copy@ == cells@.take(i as int),
            decreases cells.len() - i,
        {
            let c = cells[i];
            copy.push(c);
            assert(cells@.take(i as int + 1) =~= cells@.take(i as int).push(c));
            i = i + 1;
        }
        assert(cells@.take(cells.len() as int) =~= cells@);
        copy
    }

    fn position_of(cells: &Vec<(u8, u8)>, cell: (u8, u8)) -> (found: bool)
        ensures
            found == cells@.contains(cell),
    {
        let mut i: usize = 0;
        while i < cells.len()
            invariant
                i <= cells.len(),
                forall|j: int| 0 <= j < i ==> cells@[j] != cell,
            decreases cells.len() - i,
        {
            let c = cells[i];
            if c.0 == cell.0 && c.1 == cell.1 {
                return true;
            }
            i = i + 1;
        }
        false
    }

    /// Sets the value of cell `(x, y)` and marks the cell changed.
    pub fn update_cell(&mut self, x: u8, y: u8, value: T)
        requires
            x < 16,
            y < 16,
        ensures
            final(self).id_of() == old(self).id_of(),
            final(self).table_of().x_axis == old(self).table_of().x_axis,
            final(self).table_of().y_axis == old(self).table_of().y_axis,
            forall|i: int, j: int|
                0 <= i < 16 && 0 <= j < 16 ==> #[trigger] final(self).table_of().data@[i]@[j] == if i
                    == x && j == y {
                    value
                } else {
                    old(self).table_of().data@[i]@[j]
                },
            final(self).modified() == old(self).modified().insert((x, y)),
    {
        proof {
            use_type_invariant(&*self);
        }
        let mut table = Table3D {
            x_axis: self.table.x_axis,
            y_axis: self.table.y_axis,
            data: self.table.data,
        };
        let mut row = table.data[x as usize];
        row[y as usize] = value;
        table.data[x as usize] = row;
        let mut cells = Self::copy_cells(&self.modified_cells);
        let cell = (x, y);
        if !Self::position_of(&cells, cell) {
            proof {
                cells@.lemma_push_to_set_commute(cell);
            }
            cells.push(cell);
            assert(cells@.to_set() =~= self.modified_cells@.to_set().insert(cell));
        } else {
            assert(self.modified_cells@.to_set().insert(cell) =~= self.modified_cells@.to_set());
        }
        *self = TableEditor { table_id: self.table_id, table, modified_cells: cells };
    }

    /// Replaces the table and the changed cells with those of a saved
    /// editor, listing each cell once.
    pub fn restore(&mut self, table: Table3D<T, 16, 16>, cells: &Vec<(u8, u8)>)
        ensures
            final(self).id_of() == old(self).id_of(),
            final(self).table_of() == table,
            final(self).modified() == cells@.to_set(),
    {
        let mut kept: Vec<(u8, u8)> = Vec::new();
        let mut i: usize = 0;
        while i < cells.len()
            invariant
                i <= cells.len(),
                kept@.no_duplicates(),
                kept@.to_set() =~= cells@.take(i as int).to_set(),
            decreases cells.len() - i,
        {
            let c = cells[i];
            assert(cells@.take(i as int + 1) =~= cells@.take(i as int).push(c));
            proof {
                cells@.take(i as int).lemma_push_to_set_commute(c);
                kept@.lemma_push_to_set_commute(c);
            }
            if !Self::position_of(&kept, c) {
                kept.push(c);
            } else {
                assert(kept@.to_set().insert(c) =~= kept@.to_set());
            }
            i = i + 1;
        }
        assert(cells@.take(cells.len() as int) =~= cells@);
        *self = TableEditor { table_id: self.table_id, table, modified_cells: kept };
    }
}

/// Sends configuration updates to the controller.
pub struct ConfigManager {}

impl ConfigManager {
    /// A configuration manager.
    pub fn new() -> (c: Self)
        ensures
            c == (ConfigManager {}),
    {
        ConfigManager {}
    }
}

} // verus!

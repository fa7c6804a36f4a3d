//! The migration that sets up the application's database. Each direction
//! is stated as a schema change on one table; the application shell carries
//! the change out against the database.
use vstd::prelude::*;

verus! {

/// Tables that migrations of this crate manage.
#[derive(Copy, Clone, Debug, PartialEq, Eq, Structural)]
pub enum Table {
    /// The table of `entities::area::Model`.
    Area,
}

/// One change to the database schema.
#[derive(Copy, Clone, Debug, PartialEq, Eq, Structural)]
pub enum SchemaStep {
    /// Create the table, with the columns of its record.
    CreateTable(Table),
    /// Drop the table and its rows.
    DropTable(Table),
}

/// The step that takes the schema back to where it was before `step`.
pub open spec fn inverse(step: SchemaStep) -> SchemaStep {
    match step {
        SchemaStep::CreateTable(t) => SchemaStep::DropTable(t),
        SchemaStep::DropTable(t) => SchemaStep::CreateTable(t),
    }
}

/// What applying the migration does: create the area table.
pub open spec fn up_step() -> SchemaStep {
    SchemaStep::CreateTable(Table::Area)
}

/// What reverting the migration does: drop the area table.
pub open spec fn down_step() -> SchemaStep {
    SchemaStep::DropTable(Table::Area)
}

/// The migration that initialises the database.
#[derive(Copy, Clone, Debug)]
pub struct Migration;

impl Migration {
    /// The schema change that applying the migration makes.
    pub fn up(&self) -> (r: SchemaStep)
        ensures
            r == up_step(),
    {
        SchemaStep::CreateTable(Table::Area)
    }

    /// The schema change that reverting the migration makes.
    pub fn down(&self) -> (r: SchemaStep)
        ensures
            r == down_step(),
    {
        SchemaStep::DropTable(Table::Area)
    }
}

/// Reverting the migration undoes applying it: `down` makes the inverse
/// change of `up`, on the same table.
pub proof fn lemma_down_reverses_up()
    ensures
        down_step() == inverse(up_step()),
        up_step() == inverse(down_step()),
{
}

} // verus!

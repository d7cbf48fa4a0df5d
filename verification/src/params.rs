//! Parameters of the test-data generator.

use vstd::prelude::*;

verus! {

/// How much data to generate.
#[derive(Clone, Copy, Debug, PartialEq, Eq, Structural)]
pub enum DataSize {
    /// Generate this number of lines.
    Lines(u64),
    /// Generate at least this number of bytes.
    AtLeast(u64),
}

impl Default for DataSize {
    fn default() -> (size: Self)
        ensures
            size == DataSize::Lines(100),
    {
        DataSize::Lines(100)
    }
}

/// The size that two optional requests give: a byte size comes before a
/// line count, and 100 lines are the default where neither is given.
pub open spec fn requested_size(byte_size: Option<u64>, line_count: Option<u64>) -> DataSize {
    match (byte_size, line_count) {
        (Some(bytes), _) => DataSize::AtLeast(bytes),
        (None, Some(lines)) => DataSize::Lines(lines),
        (None, None) => DataSize::Lines(100),
    }
}

impl DataSize {
    /// Chooses the size from an optional byte size and an optional line
    /// count.
    pub fn from_options(byte_size: Option<u64>, line_count: Option<u64>) -> (size: Self)
        ensures
            size == requested_size(byte_size, line_count),
    {
        if let Some(byte_size) = byte_size {
            DataSize::AtLeast(byte_size)
        } else if let Some(line_count) = line_count {
            DataSize::Lines(line_count)
        } else {
            DataSize::default()
        }
    }
}

/// The line templates that the generator knows.
#[derive(Clone, Copy, Debug, PartialEq, Eq, Structural)]
pub enum Templates {
    Winston,
}

/// What a run of the generator is asked for.
pub struct Params {
    data_size: DataSize,
}

impl Params {
    /// The size that these parameters ask for.
    pub closed spec fn size(&self) -> DataSize {
        self.data_size
    }

    /// Parameters that ask for the given size.
    pub fn new(data_size: DataSize) -> (params: Self)
        ensures
            params.size() == data_size,
    {
        Self { data_size }
    }

    /// The size that these parameters ask for.
    pub fn data_size(&self) -> (size: &DataSize)
        ensures
            *size == self.size(),
    {
        &self.data_size
    }
}

} // verus!

use vstd::prelude::*;

verus! {

/// The two programmable stages that make up a shader program.
#[derive(Clone, Copy, PartialEq, Eq, Structural, Debug)]
pub enum ShaderStage {
    Vertex,
    Fragment,
}

/// Why a wrapper could not be made or used.
#[derive(Debug, PartialEq, Eq)]
pub enum GpuError {
    /// The context handed back the null handle for a new object.
    Allocation,
    /// A write of `size` bytes at `offset` does not fit in `capacity` bytes.
    OutOfBounds { offset: usize, size: usize, capacity: usize },
    /// A write of `size` bytes was given only `available` bytes of data.
    ShortData { size: usize, available: usize },
    /// A stage did not compile; `log` is the context's diagnostic text.
    Compile { stage: ShaderStage, log: String },
    /// The program did not link; `log` is the context's diagnostic text.
    Link { log: String },
}

} // verus!

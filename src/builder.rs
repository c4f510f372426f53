use vstd::prelude::*;

verus! {

/// A computer configuration: a processor and memory, optionally a graphics
/// card and storage.
#[derive(Debug, PartialEq)]
pub struct Computer {
    pub cpu: String,
    pub ram_gb: u32,
    pub gpu: Option<String>,
    pub storage_gb: Option<u32>,
}

/// Collects the parts of a `Computer` step by step.
pub struct ComputerBuilder {
    cpu: String,
    ram_gb: u32,
    gpu: Option<String>,
    storage_gb: Option<u32>,
}

impl ComputerBuilder {
    /// The computer that `build` would return now.
    pub closed spec fn spec_build(&self) -> Computer {
        Computer { cpu: self.cpu, ram_gb: self.ram_gb, gpu: self.gpu, storage_gb: self.storage_gb }
    }

    pub fn new(cpu: String, ram_gb: u32) -> (r: ComputerBuilder)
        ensures
            r.spec_build() == (Computer { cpu, ram_gb, gpu: None, storage_gb: None }),
    {
        ComputerBuilder { cpu, ram_gb, gpu: None, storage_gb: None }
    }

    /// Sets the graphics card, replacing one set before.
    pub fn add_gpu(self, gpu: String) -> (r: ComputerBuilder)
        ensures
            r.spec_build() == (Computer { gpu: Some(gpu), ..self.spec_build() }),
    {
        ComputerBuilder {
            cpu: self.cpu,
            ram_gb: self.ram_gb,
            gpu: Some(gpu),
            storage_gb: self.storage_gb,
        }
    }

    /// Sets the storage size, replacing one set before.
    pub fn add_storage(self, storage_gb: u32) -> (r: ComputerBuilder)
        ensures
            r.spec_build() == (Computer { storage_gb: Some(storage_gb), ..self.spec_build() }),
    {
        ComputerBuilder {
            cpu: self.cpu,
            ram_gb: self.ram_gb,
            gpu: self.gpu,
            storage_gb: Some(storage_gb),
        }
    }

    pub fn build(self) -> (r: Computer)
        ensures
            r == self.spec_build(),
    {
        Computer {
            cpu: self.cpu,
            ram_gb: self.ram_gb,
            gpu: self.gpu,
            storage_gb: self.storage_gb,
        }
    }
}

} // verus!

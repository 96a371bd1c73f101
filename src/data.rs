use vstd::prelude::*;

verus! {

/// One container's latest observation, its fields as the producer printed them.
#[derive(Debug, Clone)]
pub struct DockerStats {
    pub block_io: String,
    pub cpu_perc: String,
    pub id: String,
    pub mem_perc: String,
    pub mem_usage: String,
    pub name: String,
    pub net_io: String,
}

impl DockerStats {
    /// A field-by-field copy.
    pub fn duplicate(&self) -> (r: DockerStats)
        ensures
            r == *self,
    {
        DockerStats {
            block_io: self.block_io.clone(),
            cpu_perc: self.cpu_perc.clone(),
            id: self.id.clone(),
            mem_perc: self.mem_perc.clone(),
            mem_usage: self.mem_usage.clone(),
            name: self.name.clone(),
            net_io: self.net_io.clone(),
        }
    }
}

} // verus!

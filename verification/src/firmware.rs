//! Locations of the co-processor firmware binaries.

use vstd::prelude::*;

verus! {

/// Master firmware binary path.
pub const MASTER_BIN_PATH: &'static str = "/root/spi-duplex/pru-spi-master.bin";

/// Slave firmware binary path.
pub const SLAVE_BIN_PATH: &'static str = "/root/spi-duplex/pru-spi-slave.bin";

/// File name of the master firmware binary under a search directory.
pub const MASTER_BIN_NAME: &'static str = "pru-spi-master.bin";

/// File name of the slave firmware binary under a search directory.
pub const SLAVE_BIN_NAME: &'static str = "pru-spi-slave.bin";

/// The directories searched for the firmware binaries, in order.
pub open spec fn firmware_search_paths_spec() -> Seq<Seq<char>> {
    seq![
        "/root/spi-duplex/"@,
        "/opt/pru-firmware/"@,
        "/lib/firmware/pru-spi/"@,
        "/usr/local/bin/spi-duplex/"@,
    ]
}

/// The directories searched for the firmware binaries, in order.
pub fn firmware_search_paths() -> (v: Vec<&'static str>)
    ensures
        v@.len() == firmware_search_paths_spec().len(),
        forall|i: int|
            0 <= i < v@.len() ==> v@[i]@ == firmware_search_paths_spec()[i],
{
    let mut v: Vec<&'static str> = Vec::new();
    v.push("/root/spi-duplex/");
    v.push("/opt/pru-firmware/");
    v.push("/lib/firmware/pru-spi/");
    v.push("/usr/local/bin/spi-duplex/");
    v
}

/// Relies on std::path::Path::exists: whether a file of that name can
/// currently be seen on disk.  The answer depends on the machine's
/// state, so nothing is claimed of it.
#[verifier::external_body]
fn path_exists(p: &str) -> bool {
    std::path::Path::new(p).exists()
}

/// Search the candidate directories for both firmware binaries and
/// return the first directory holding both, if any.  What is on disk is
/// the machine's to decide; what is promised is that a found directory
/// is one of the candidates.
pub fn locate_firmware() -> (r: Option<String>)
    ensures
        r matches Some(base) ==> (exists|i: int|
            0 <= i < firmware_search_paths_spec().len() && base@
                == firmware_search_paths_spec()[i]),
{
    let paths = firmware_search_paths();
    let mut i: usize = 0;
    while i < paths.len()
        invariant
            paths@.len() == firmware_search_paths_spec().len(),
            forall|j: int|
                0 <= j < paths@.len() ==> paths@[j]@ == firmware_search_paths_spec()[j],
            i <= paths@.len(),
        decreases paths@.len() - i,
    {
        let base = paths[i];
        let mut master_path = base.to_owned();
        master_path.append(MASTER_BIN_NAME);
        let mut slave_path = base.to_owned();
        slave_path.append(SLAVE_BIN_NAME);
        if path_exists(master_path.as_str()) && path_exists(slave_path.as_str()) {
            return Some(base.to_owned());
        }
        i = i + 1;
    }
    None
}

} // verus!

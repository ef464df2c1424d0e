use pru_spi_duplex::firmware;
use pru_spi_duplex::memory;
use pru_spi_duplex::pins;

#[test]
fn test_firmware_path_constants() {
    assert!(!firmware::MASTER_BIN_PATH.is_empty());
    assert!(!firmware::SLAVE_BIN_PATH.is_empty());
}

#[test]
fn test_pin_names() {
    assert_eq!(pins::master::CS, "P9_27");
    assert_eq!(pins::slave::MOSI, "P8_45");
}

#[test]
fn test_memory_sizes() {
    assert!(memory::PRU_DATA_RAM_SIZE > 0);
    assert!(memory::PRU_SHARED_RAM_SIZE > 0);
}

#[test]
fn firmware_search_paths_are_the_candidates() {
    let paths = firmware::firmware_search_paths();
    assert_eq!(
        paths,
        vec![
            "/root/spi-duplex/",
            "/opt/pru-firmware/",
            "/lib/firmware/pru-spi/",
            "/usr/local/bin/spi-duplex/",
        ]
    );
}

#[test]
fn locate_firmware_reports_a_candidate_or_nothing() {
    // What is on disk is the machine's to decide; a found directory must
    // be one of the candidates.
    match firmware::locate_firmware() {
        Some(base) => {
            assert!(firmware::firmware_search_paths().contains(&base.as_str()));
        }
        None => {}
    }
}

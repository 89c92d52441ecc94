use oxide_motive::host::ble::BleBridge;
use oxide_motive::host::config::{ConfigManager, TableEditor};
use oxide_motive::host::discovery::DiscoveryManager;
use oxide_motive::host::display::{DisplayProbe, RendererTier};
use oxide_motive::host::ipc::{length_prefix, prefix_length};
use oxide_motive::host::logger::LogPlayback;
use oxide_motive::host::ota::OtaManager;
use oxide_motive::host::serial_link::{serial_step, SerialLog, SerialRead, SerialStep};
use oxide_motive::host::text::starts_with;

#[test]
fn display_probe_tiers() {
    let card = vec![("card0".to_string(), false), ("renderD128".to_string(), false)];
    assert_eq!(DisplayProbe::tier_for(true, &card), RendererTier::Tier1);
    let no_card = vec![("renderD128".to_string(), false), ("card0".to_string(), true)];
    assert_eq!(DisplayProbe::tier_for(true, &no_card), RendererTier::Tier2);
    assert_eq!(DisplayProbe::tier_for(true, &Vec::new()), RendererTier::Tier2);
    assert_eq!(DisplayProbe::tier_for(false, &card), RendererTier::Tier3);
}

#[test]
fn renderer_environment_per_tier() {
    assert_eq!(DisplayProbe::renderer_env(RendererTier::Tier1), ("linuxkms", "skia-opengl"));
    assert_eq!(DisplayProbe::renderer_env(RendererTier::Tier2), ("linuxkms", "skia-software"));
    assert_eq!(DisplayProbe::renderer_env(RendererTier::Tier3), ("x11", "software"));
}

#[test]
fn discovery_picks_first_matching_device() {
    let ttys = vec!["tty0".to_string(), "ttyUSB1".to_string(), "ttyACM0".to_string()];
    assert_eq!(DiscoveryManager::select_uart(&ttys), Some("/dev/ttyUSB1".to_string()));
    assert_eq!(DiscoveryManager::select_uart(&vec!["ttyS0".to_string()]), None);
    let ifaces = vec!["lo".to_string(), "wlan0".to_string(), "eth0".to_string()];
    assert_eq!(DiscoveryManager::select_network_interface(&ifaces), Some("wlan0".to_string()));
    assert_eq!(DiscoveryManager::select_network_interface(&vec!["lo".to_string()]), None);
}

#[test]
fn starts_with_compares_characters() {
    assert!(starts_with("ttyACM0", "ttyACM"));
    assert!(starts_with("abc", ""));
    assert!(!starts_with("tty", "ttyACM"));
    assert!(!starts_with("éth0", "eth"));
}

#[test]
fn ipc_length_prefix_round_trip() {
    assert_eq!(length_prefix(11), [0, 0, 0, 11]);
    assert_eq!(length_prefix(0x0102_0304), [1, 2, 3, 4]);
    assert_eq!(prefix_length([1, 2, 3, 4]), 0x0102_0304);
    for len in [0usize, 1, 255, 256, 65_536, 123_456_789] {
        assert_eq!(prefix_length(length_prefix(len)) as usize, len);
    }
}

#[test]
fn log_playback_walks_the_log() {
    let mut playback = LogPlayback::from_data(vec![1, 2, 3, 4, 5]);
    assert_eq!(playback.unread(), Some(&[1u8, 2, 3, 4, 5][..]));
    playback.advance(2);
    assert_eq!(playback.unread(), Some(&[3u8, 4, 5][..]));
    playback.advance(3);
    assert_eq!(playback.unread(), None);
    assert_eq!(LogPlayback::from_data(Vec::new()).unread(), None);
}

fn hex(s: &str) -> Vec<u8> {
    (0..s.len()).step_by(2).map(|i| u8::from_str_radix(&s[i..i + 2], 16).unwrap()).collect()
}

#[test]
fn ota_accepts_a_valid_signature_only() {
    // RFC 8032, section 7.1, test 1: the empty message.
    let key: [u8; 32] =
        hex("d75a980182b10ab7d54bfed3c964073a0ee172f3daa62325af021a68f707511a").try_into().unwrap();
    let sig_hex = "e5564300c360ac729086e2cc806e828a84877f1eb8e5d974d873e065224901555".to_string()
        + "fb8821590a33bacc61e39701cf9b46bd25bf5f0595bbe24655141438e7a100b";
    let sig: [u8; 64] = hex(&sig_hex).try_into().unwrap();
    let ota = OtaManager::new(key);
    assert!(ota.verify_firmware(&[], &sig));
    assert!(!ota.verify_firmware(&[0x00], &sig));
    let mut bad = sig;
    bad[0] ^= 1;
    assert!(!ota.verify_firmware(&[], &bad));
    assert_eq!(ota.flash_firmware(&[]), Ok(()));
}

#[test]
fn table_editor_tracks_changed_cells() {
    let mut editor: TableEditor<i32> = TableEditor::new(4);
    assert_eq!(editor.table_id(), 4);
    assert!(editor.modified_cells().is_empty());
    assert_eq!(editor.table().data[3][5], 0);
    editor.update_cell(3, 5, 123);
    editor.update_cell(0, 0, 7);
    editor.update_cell(3, 5, 124);
    assert_eq!(editor.table().data[3][5], 124);
    assert_eq!(editor.table().data[0][0], 7);
    assert_eq!(editor.table().data[5][3], 0);
    let mut cells = editor.modified_cells();
    cells.sort();
    assert_eq!(cells, vec![(0, 0), (3, 5)]);
}

#[test]
fn table_editor_restore_lists_cells_once() {
    let mut editor: TableEditor<i32> = TableEditor::new(1);
    let mut other: TableEditor<i32> = TableEditor::new(2);
    other.update_cell(15, 15, -1);
    let table = oxide_motive::table::Table3D::new_from_data(other.table().data);
    editor.restore(table, &vec![(1, 2), (1, 2), (15, 15)]);
    assert_eq!(editor.table_id(), 1);
    assert_eq!(editor.table().data[15][15], -1);
    let mut cells = editor.modified_cells();
    cells.sort();
    assert_eq!(cells, vec![(1, 2), (15, 15)]);
}

#[test]
fn bridge_and_config_construct() {
    let _bridge = BleBridge::new("/dev/ttyUSB0");
    let _config = ConfigManager::new();
}

#[test]
fn serial_polling_steps() {
    assert_eq!(
        serial_step(SerialRead::Bytes(12)),
        SerialStep { log: Some(SerialLog::ReadBytes(12)), keep_reading: true }
    );
    assert_eq!(serial_step(SerialRead::Bytes(0)), SerialStep { log: None, keep_reading: true });
    assert_eq!(serial_step(SerialRead::TimedOut), SerialStep { log: None, keep_reading: true });
    assert_eq!(
        serial_step(SerialRead::Failed),
        SerialStep { log: Some(SerialLog::PortError), keep_reading: false }
    );
}

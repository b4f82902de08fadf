use crossbeam_channel::unbounded;
use status_blocks::blocks::firewall::{
    is_ufw_active, Firewall, FirewallConfig, ACTIVE_MARK, ENABLED_LINE, FIREWALL_ICON,
};
use status_blocks::blocks::{Block, ConfigBlock};
use status_blocks::config::Config;
use status_blocks::errors::{ConfigError, ProbeError};
use status_blocks::fragment::{ConfigEntry, ConfigValue};
use status_blocks::input::I3BarEvent;
use status_blocks::interval::Interval;
use status_blocks::scheduler::{Task, Update};
use status_blocks::widget::{DisplaySegment, State};

fn bar_config() -> Config {
    Config { icons: "awesome".to_string(), theme: "solarized-dark".to_string() }
}

fn firewall_every(interval: Interval) -> Firewall {
    let (tx, _rx) = unbounded::<Task>();
    Firewall::new(FirewallConfig { interval }, bar_config(), tx, "fw-1".to_string()).unwrap()
}

fn firewall_face(text: &str, state: State) -> Vec<DisplaySegment> {
    vec![DisplaySegment { text: text.to_string(), icon: "firewall".to_string(), state }]
}

const UFW_ON: &str = "# /etc/ufw/ufw.conf\n#\n\nENABLED=yes\n\nLOGLEVEL=low\n";
const UFW_OFF: &str = "# /etc/ufw/ufw.conf\n#\n\nENABLED=no\n\nLOGLEVEL=low\n";
const SERVICE_RUNNING: &[u8] = b"* ufw.service - Uncomplicated firewall\n     Loaded: loaded (/lib/systemd/system/ufw.service; enabled)\n     Active: active (exited) since Mon 2019-06-03 10:01:07 CEST; 3h ago\n";
const SERVICE_STOPPED: &[u8] = b"* ufw.service - Uncomplicated firewall\n     Loaded: loaded (/lib/systemd/system/ufw.service; enabled)\n     Active: inactive (dead)\n";

#[test]
fn firewall_constants_are_the_documented_markers() {
    assert_eq!(FIREWALL_ICON, "firewall");
    assert_eq!(ENABLED_LINE, "ENABLED=yes");
    assert_eq!(ACTIVE_MARK, "Active: active ");
}

#[test]
fn firewall_default_interval_is_five_seconds() {
    assert_eq!(FirewallConfig::default_interval(), Interval::from_secs(5));
    assert_eq!(FirewallConfig::default().interval, Interval::from_secs(5));
}

#[test]
fn firewall_is_up_when_enabled_and_running() {
    assert_eq!(is_ufw_active(UFW_ON, SERVICE_RUNNING.to_vec()), Ok(true));
}

#[test]
fn firewall_is_down_when_either_check_fails() {
    assert_eq!(is_ufw_active(UFW_OFF, SERVICE_RUNNING.to_vec()), Ok(false));
    assert_eq!(is_ufw_active(UFW_ON, SERVICE_STOPPED.to_vec()), Ok(false));
    assert_eq!(is_ufw_active(UFW_OFF, SERVICE_STOPPED.to_vec()), Ok(false));
    assert_eq!(is_ufw_active("", Vec::new()), Ok(false));
}

#[test]
fn firewall_probe_fails_on_output_that_is_no_text() {
    assert_eq!(is_ufw_active(UFW_ON, vec![0xff, 0xfe]), Err(ProbeError::UnexpectedFormat));
    assert_eq!(is_ufw_active(UFW_OFF, vec![0x80]), Err(ProbeError::UnexpectedFormat));
}

#[test]
fn firewall_probe_reads_the_output_and_not_only_the_configuration() {
    let mut report = SERVICE_RUNNING.to_vec();
    report.extend_from_slice("\u{25cf} done\n".as_bytes());
    assert_eq!(is_ufw_active(UFW_ON, report), Ok(true));
    assert_eq!(is_ufw_active(UFW_ON, b"Active: active".to_vec()), Ok(false));
}

#[test]
fn firewall_is_built_inert_and_unprobed() {
    let block = firewall_every(Interval::from_secs(5));
    assert_eq!(block.id(), "fw-1");
    assert_eq!(block.view(), firewall_face("", State::Idle));
}

#[test]
fn firewall_with_an_empty_interval_is_not_built() {
    let (tx, _rx) = unbounded::<Task>();
    let made = Firewall::new(
        FirewallConfig { interval: Interval::from_secs(0) },
        bar_config(),
        tx,
        "fw-1".to_string(),
    );
    assert!(matches!(made, Err(ConfigError::InvalidInterval)));
}

#[test]
fn firewall_echoes_its_interval_on_every_update() {
    for interval in [
        Interval::from_secs(1),
        Interval::from_secs(5),
        Interval::from_secs(u64::MAX),
        Interval::new(0, 1).unwrap(),
        Interval::new(2, 500_000_000).unwrap(),
    ] {
        let mut block = firewall_every(interval);
        for probe in [Ok(true), Ok(false), Err(ProbeError::Inaccessible), Ok(true)] {
            assert_eq!(block.update(probe), Ok(Some(Update::RescheduleAfter(interval))));
        }
    }
}

#[test]
fn firewall_follows_the_latest_probe_only() {
    let mut block = firewall_every(Interval::from_secs(5));
    block.update(Ok(true)).unwrap();
    assert_eq!(block.view(), firewall_face("", State::Good));
    block.update(Ok(false)).unwrap();
    assert_eq!(block.view(), firewall_face("down", State::Critical));
    block.update(Ok(true)).unwrap();
    assert_eq!(block.view(), firewall_face("", State::Good));
}

#[test]
fn firewall_shows_a_failed_probe_as_down() {
    for cause in [
        ProbeError::Inaccessible,
        ProbeError::PermissionDenied,
        ProbeError::UnexpectedFormat,
    ] {
        let mut block = firewall_every(Interval::from_secs(5));
        assert_eq!(
            block.update(Err(cause)),
            Ok(Some(Update::RescheduleAfter(Interval::from_secs(5))))
        );
        assert_eq!(block.view(), firewall_face("down", State::Critical));
    }
}

#[test]
fn firewall_with_unreadable_flag_file_is_down_and_keeps_polling() {
    let (tx, _rx) = unbounded::<Task>();
    let mut block =
        Firewall::from_entries(&Vec::new(), bar_config(), tx, "fw-7".to_string()).unwrap();
    let probe: Result<bool, ProbeError> = Err(ProbeError::Inaccessible);
    let next = block.update(probe);
    assert_eq!(next, Ok(Some(Update::RescheduleAfter(Interval::from_secs(5)))));
    assert_eq!(block.view(), firewall_face("down", State::Critical));
    let next = block.update(probe);
    assert_eq!(next, Ok(Some(Update::RescheduleAfter(Interval::from_secs(5)))));
}

#[test]
fn firewall_probe_result_drives_the_block() {
    let mut block = firewall_every(Interval::from_secs(5));
    block.update(is_ufw_active(UFW_ON, SERVICE_RUNNING.to_vec())).unwrap();
    assert_eq!(block.view(), firewall_face("", State::Good));
    block.update(is_ufw_active(UFW_ON, SERVICE_STOPPED.to_vec())).unwrap();
    assert_eq!(block.view(), firewall_face("down", State::Critical));
    block.update(is_ufw_active(UFW_ON, vec![0xff])).unwrap();
    assert_eq!(block.view(), firewall_face("down", State::Critical));
}

#[test]
fn firewall_view_is_the_same_twice() {
    let mut block = firewall_every(Interval::from_secs(5));
    assert_eq!(block.view(), block.view());
    block.update(Ok(false)).unwrap();
    let first = block.view();
    let second = block.view();
    assert_eq!(first, second);
    assert_eq!(first, firewall_face("down", State::Critical));
}

#[test]
fn firewall_ignores_any_click() {
    let clicks = [
        I3BarEvent {
            name: None,
            instance: None,
            button: 0,
            x: 0,
            y: 0,
            modifiers: Vec::new(),
        },
        I3BarEvent {
            name: Some("firewall".to_string()),
            instance: Some("fw-1".to_string()),
            button: 1,
            x: 1820,
            y: 7,
            modifiers: vec!["Shift".to_string()],
        },
        I3BarEvent {
            name: Some("\u{0}\u{ffff}".to_string()),
            instance: Some(String::new()),
            button: u64::MAX,
            x: i64::MIN,
            y: i64::MAX,
            modifiers: vec![String::new(), "\n".to_string(), "Mod9".to_string()],
        },
    ];
    let mut block = firewall_every(Interval::from_secs(5));
    block.update(Ok(false)).unwrap();
    for click in clicks.iter() {
        assert_eq!(block.click(click), Ok(()));
        assert_eq!(block.id(), "fw-1");
        assert_eq!(block.view(), firewall_face("down", State::Critical));
        assert_eq!(
            block.update(Ok(false)),
            Ok(Some(Update::RescheduleAfter(Interval::from_secs(5))))
        );
    }
}

#[test]
fn firewall_keeps_its_identity() {
    let mut block = firewall_every(Interval::from_secs(5));
    block.update(Ok(true)).unwrap();
    block.update(Err(ProbeError::PermissionDenied)).unwrap();
    assert_eq!(block.id(), "fw-1");
}

#[test]
fn firewall_from_an_empty_fragment_polls_every_five_seconds() {
    let (tx, _rx) = unbounded::<Task>();
    let mut block =
        Firewall::from_entries(&Vec::new(), bar_config(), tx, "fw-2".to_string()).unwrap();
    assert_eq!(block.id(), "fw-2");
    assert_eq!(block.view(), firewall_face("", State::Idle));
    assert_eq!(
        block.update(Ok(true)),
        Ok(Some(Update::RescheduleAfter(Interval::from_secs(5))))
    );
}

#[test]
fn firewall_from_a_fragment_takes_its_interval() {
    let (tx, _rx) = unbounded::<Task>();
    let entries =
        vec![ConfigEntry { key: "interval".to_string(), value: ConfigValue::Integer(60) }];
    let mut block = Firewall::from_entries(&entries, bar_config(), tx, "fw-3".to_string()).unwrap();
    assert_eq!(
        block.update(Ok(true)),
        Ok(Some(Update::RescheduleAfter(Interval::from_secs(60))))
    );
    assert_eq!(FirewallConfig::from_entries(&entries).unwrap().interval, Interval::from_secs(60));
}

#[test]
fn firewall_from_a_fragment_with_an_unknown_key_is_not_built() {
    let (tx, _rx) = unbounded::<Task>();
    let entries = vec![
        ConfigEntry { key: "interval".to_string(), value: ConfigValue::Integer(60) },
        ConfigEntry { key: "format".to_string(), value: ConfigValue::Other },
    ];
    let made = Firewall::from_entries(&entries, bar_config(), tx, "fw-4".to_string());
    assert!(matches!(made, Err(ConfigError::UnknownField(key)) if key == "format"));
    assert_eq!(
        FirewallConfig::from_entries(&entries).unwrap_err(),
        ConfigError::UnknownField("format".to_string())
    );
}

#[test]
fn firewall_from_a_fragment_with_a_bad_interval_is_not_built() {
    let (tx, _rx) = unbounded::<Task>();
    let entries =
        vec![ConfigEntry { key: "interval".to_string(), value: ConfigValue::Integer(0) }];
    let made = Firewall::from_entries(&entries, bar_config(), tx, "fw-5".to_string());
    assert!(matches!(made, Err(ConfigError::InvalidInterval)));
    let (tx, _rx) = unbounded::<Task>();
    let entries = vec![
        ConfigEntry { key: "interval".to_string(), value: ConfigValue::Integer(1) },
        ConfigEntry { key: "interval".to_string(), value: ConfigValue::Integer(2) },
    ];
    let made = Firewall::from_entries(&entries, bar_config(), tx, "fw-6".to_string());
    assert!(matches!(made, Err(ConfigError::DuplicateField(key)) if key == "interval"));
}

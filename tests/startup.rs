use web_ui_backend::config::{Config, StreamConfig};
use web_ui_backend::device::{
    codec_device, device, precision_for, select_device, DeviceKind, Precision,
};
use web_ui_backend::env::replace_env_vars;
use web_ui_backend::error::StartupError;
use web_ui_backend::warmup::{frame_length, Outcome, Stage};

fn vars(pairs: &[(&str, &str)]) -> Vec<(String, String)> {
    pairs.iter().map(|(k, v)| (k.to_string(), v.to_string())).collect()
}

fn sample_config(cert_dir: &str) -> Config {
    Config {
        cert_dir: cert_dir.to_string(),
        static_dir: "${HOME}/static".to_string(),
        addr: "0.0.0.0".to_string(),
        port: 8998,
        stream: StreamConfig {
            log_dir: "${HOME}/logs".to_string(),
            text_tokenizer_file: "${MODELS}/tokenizer.model".to_string(),
            encodec_model_file: "${MODELS}/codec.safetensors".to_string(),
            lm_model_file: "${MODELS}/lm.safetensors".to_string(),
            encodec_num_codebooks: 8,
            use_cpu_for_encodec: true,
        },
    }
}

/// Runs the stages in order with the given outcomes.
fn run(outcomes: &[Outcome]) -> Result<Stage, StartupError> {
    let mut stage = Stage::first();
    for o in outcomes {
        stage = stage.advance(*o)?;
    }
    Ok(stage)
}

#[test]
fn placeholder_replaced_by_value() {
    let v = vars(&[("X", "/data")]);
    assert_eq!(replace_env_vars("${X}/models", &v), "/data/models");
    assert_eq!(replace_env_vars("a/${X}/b", &v), "a//data/b");
}

#[test]
fn unset_placeholder_is_empty() {
    let v = vars(&[("Y", "y")]);
    assert_eq!(replace_env_vars("${X}/models", &v), "/models");
    assert_eq!(replace_env_vars("${X}", &vars(&[])), "");
}

#[test]
fn several_placeholders_and_plain_text() {
    let v = vars(&[("A", "1"), ("B", "22")]);
    assert_eq!(replace_env_vars("${A}-${B}-${A}", &v), "1-22-1");
    assert_eq!(replace_env_vars("no placeholders", &v), "no placeholders");
    assert_eq!(replace_env_vars("", &v), "");
}

#[test]
fn first_entry_wins() {
    let v = vars(&[("A", "first"), ("A", "second")]);
    assert_eq!(replace_env_vars("${A}", &v), "first");
}

#[test]
fn unclosed_or_bare_dollar_kept() {
    let v = vars(&[("A", "1")]);
    assert_eq!(replace_env_vars("${A", &v), "${A");
    assert_eq!(replace_env_vars("$A", &v), "$A");
    assert_eq!(replace_env_vars("$${A}", &v), "$1");
    assert_eq!(replace_env_vars("x}${A}}", &v), "x}1}");
}

#[test]
fn non_ascii_text_kept() {
    let v = vars(&[("É", "é")]);
    assert_eq!(replace_env_vars("ä/${É}/ö", &v), "ä/é/ö");
}

#[test]
fn load_resolves_every_path_field() {
    let v = vars(&[("HOME", "/home/u"), ("MODELS", "/m"), ("CERTS", "/c")]);
    let c = Config::load(sample_config("${CERTS}"), &v);
    assert_eq!(c.cert_dir, "/c");
    assert_eq!(c.static_dir, "/home/u/static");
    assert_eq!(c.stream.log_dir, "/home/u/logs");
    assert_eq!(c.stream.text_tokenizer_file, "/m/tokenizer.model");
    assert_eq!(c.stream.encodec_model_file, "/m/codec.safetensors");
    assert_eq!(c.stream.lm_model_file, "/m/lm.safetensors");
    assert_eq!(c.addr, "0.0.0.0");
    assert_eq!(c.port, 8998);
    assert_eq!(c.stream.encodec_num_codebooks, 8);
    assert!(c.stream.use_cpu_for_encodec);
}

#[test]
fn load_with_unset_variables() {
    let c = Config::load(sample_config("${CERTS}/tls"), &vars(&[]));
    assert_eq!(c.cert_dir, "/tls");
    assert_eq!(c.stream.lm_model_file, "/lm.safetensors");
}

#[test]
fn cert_file_missing() {
    let c = sample_config("/etc/certs");
    assert_eq!(
        c.cert_file("cert.pem", false),
        Err(StartupError::MissingFile("/etc/certs/cert.pem".to_string()))
    );
}

#[test]
fn cert_file_present() {
    let c = sample_config("/etc/certs");
    assert_eq!(c.cert_file("cert.pem", true), Ok("/etc/certs/cert.pem".to_string()));
    assert_eq!(c.cert_file("key.pem", true), Ok("/etc/certs/key.pem".to_string()));
}

#[test]
fn cert_path_joins_like_a_path() {
    assert_eq!(sample_config("/etc/certs/").cert_path("cert.pem"), "/etc/certs/cert.pem");
    assert_eq!(sample_config("").cert_path("cert.pem"), "cert.pem");
    assert_eq!(sample_config("/etc/certs").cert_path("/abs/key.pem"), "/abs/key.pem");
    assert_eq!(sample_config("certs").cert_path("key.pem"), "certs/key.pem");
}

#[test]
fn device_priority_order() {
    for cuda in [false, true] {
        for metal in [false, true] {
            assert_eq!(select_device(true, cuda, metal), DeviceKind::Cpu);
        }
    }
    assert_eq!(select_device(false, true, true), DeviceKind::Cuda);
    assert_eq!(select_device(false, true, false), DeviceKind::Cuda);
    assert_eq!(select_device(false, false, true), DeviceKind::Metal);
    assert_eq!(select_device(false, false, false), DeviceKind::Cpu);
}

#[test]
fn precision_by_device() {
    assert_eq!(precision_for(DeviceKind::Cuda), Precision::BF16);
    assert_eq!(precision_for(DeviceKind::Metal), Precision::F32);
    assert_eq!(precision_for(DeviceKind::Cpu), Precision::F32);
}

#[test]
fn codec_device_choice() {
    assert_eq!(codec_device(DeviceKind::Cuda, true), DeviceKind::Cpu);
    assert_eq!(codec_device(DeviceKind::Cuda, false), DeviceKind::Cuda);
    assert_eq!(codec_device(DeviceKind::Metal, false), DeviceKind::Metal);
}

#[test]
fn forced_cpu_device_opens() {
    let d = device(true).expect("the host device always opens");
    assert_eq!(d.kind, DeviceKind::Cpu);
    assert_eq!(d.precision, Precision::F32);
    assert!(d.device.is_cpu());
}

#[test]
fn frame_length_of_codec_rates() {
    assert_eq!(frame_length(24_000_000, 75_000), Ok(320));
    assert_eq!(frame_length(24_000_000, 12_500), Ok(1920));
    assert_eq!(frame_length(1_000, 3_000), Ok(1));
    assert_eq!(frame_length(10_000, 3_000), Ok(4));
    assert_eq!(frame_length(0, 3_000), Ok(0));
    assert_eq!(frame_length(u64::MAX, 2), Ok(u64::MAX / 2 + 1));
}

#[test]
fn frame_length_zero_rate() {
    assert_eq!(frame_length(24_000_000, 0), Err(StartupError::WarmupFailed));
}

#[test]
fn warmup_all_steps_succeed() {
    let ok = [Outcome::Produced; 8];
    assert_eq!(run(&ok), Ok(Stage::Ready));
    assert!(run(&ok).unwrap().is_ready());
    assert!(!Stage::first().is_ready());
}

#[test]
fn warmup_empty_decode_fails() {
    let mut o = [Outcome::Produced; 8];
    o[6] = Outcome::Empty;
    assert_eq!(Stage::CodecEncode.advance(Outcome::Produced), Ok(Stage::CodecDecode));
    assert_eq!(run(&o), Err(StartupError::EmptyOutput));
}

#[test]
fn warmup_lm_step_fails() {
    let mut o = [Outcome::Produced; 8];
    o[3] = Outcome::Failed;
    assert_eq!(run(&o), Err(StartupError::WarmupFailed));
    let mut o = [Outcome::Produced; 8];
    o[4] = Outcome::Failed;
    assert_eq!(run(&o), Err(StartupError::WarmupFailed));
}

#[test]
fn warmup_load_failures() {
    assert_eq!(run(&[Outcome::Failed]), Err(StartupError::ModelLoad));
    assert_eq!(run(&[Outcome::Produced, Outcome::Failed]), Err(StartupError::ModelLoad));
    assert_eq!(
        run(&[Outcome::Produced, Outcome::Produced, Outcome::Failed]),
        Err(StartupError::TokenizerLoad)
    );
    let mut o = [Outcome::Produced; 8];
    o[7] = Outcome::Failed;
    assert_eq!(run(&o), Err(StartupError::WarmupFailed));
}

#[test]
fn warmup_empty_outside_decode_moves_on() {
    assert_eq!(Stage::LmSample.advance(Outcome::Empty), Ok(Stage::CodecEncode));
    assert_eq!(Stage::Ready.advance(Outcome::Failed), Ok(Stage::Ready));
}

#[test]
fn unforced_device_without_accelerator_support_is_cpu() {
    // candle is built here without its CUDA and Metal features.
    let d = device(false).expect("the host device always opens");
    assert_eq!(d.kind, DeviceKind::Cpu);
    assert_eq!(d.precision, Precision::F32);
}

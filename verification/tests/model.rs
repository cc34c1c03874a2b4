use vosk::{ModelLoadError, SpeakerModel, VoskModel};

#[test]
fn model_keeps_the_handle_and_the_path() {
    let model = VoskModel::new("models/en-small", 0x5000).unwrap();
    assert_eq!(model.handle(), 0x5000);
    assert_eq!(model.root(), "models/en-small");
    assert_eq!(model.release(), 0x5000);
}

#[test]
fn null_handle_is_a_load_error() {
    assert_eq!(VoskModel::new("models/missing", 0), Err(ModelLoadError));
    assert_eq!(SpeakerModel::new("models/missing", 0), Err(ModelLoadError));
}

#[test]
fn speaker_model_keeps_the_handle_and_the_path() {
    let speaker = SpeakerModel::new("models/spk", 9).unwrap();
    assert_eq!(speaker.handle(), 9);
    assert_eq!(speaker.root(), "models/spk");
    assert_eq!(speaker.release(), 9);
}

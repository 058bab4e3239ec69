use noob_saturator::dsp::{
    param_table, stream_ix, stream_table, LabelSet, ParamControl, StreamKind, ALIAS_LEN,
    COLOR_POINTS, LATENCY_LEN, METER_LEN, PARAM_IDS, REQUIRED_PARAMS, SPECTRUM_BINS, STREAM_COUNT,
    STREAM_IDS, TRANSFER_POINTS,
};

#[test]
fn the_stream_table_declares_the_layout() {
    let t = stream_table();
    assert_eq!(t.len(), STREAM_COUNT);
    for (e, id) in t.iter().zip(STREAM_IDS.iter()) {
        assert_eq!(e.id, *id);
    }
    let ix = stream_ix();
    assert_eq!(t[ix.meter].len, METER_LEN);
    assert_eq!(t[ix.alias].len, ALIAS_LEN);
    assert_eq!(t[ix.transfer].len, TRANSFER_POINTS);
    assert_eq!(TRANSFER_POINTS, 256);
    assert_eq!(t[ix.color].len, COLOR_POINTS);
    assert_eq!(t[ix.latency].len, LATENCY_LEN);
    assert_eq!(t[ix.spec_in].len, SPECTRUM_BINS);
    assert_eq!(t[ix.spec_out].len, SPECTRUM_BINS);
    assert_eq!(SPECTRUM_BINS, 2048);
    let sticky: Vec<&str> = t.iter().filter(|e| e.sticky).map(|e| e.id).collect();
    assert_eq!(sticky, vec!["transfer", "color", "latency"]);
    assert_eq!(t[ix.meter].kind, StreamKind::Meter);
    assert_eq!(t[ix.spec_out].kind, StreamKind::Spectrum);
    assert_eq!(t[ix.latency].name, "Dry/wet alignment");
}

#[test]
fn the_parameter_table_is_the_id_list() {
    let t = param_table(true);
    assert_eq!(t.len(), PARAM_IDS.len());
    for (e, id) in t.iter().zip(PARAM_IDS.iter()) {
        assert_eq!(e.id, *id);
    }
    let auto: usize = t.iter().filter(|e| e.automatable).count();
    assert_eq!(auto, REQUIRED_PARAMS);
    assert_eq!(t[1].unit, "%");
    assert_eq!(t[2].control, ParamControl::Labels(LabelSet::Curves));
    assert_eq!(t[14].control, ParamControl::Labels(LabelSet::Factors));
    assert_eq!(t[8].control, ParamControl::LogRange);
    assert_eq!(t[6].control, ParamControl::Toggle);
    assert_eq!(t[9].name, "Colour Width");
}

#[test]
fn the_plug_in_declares_no_source_parameters() {
    let t = param_table(false);
    assert_eq!(t.len(), REQUIRED_PARAMS);
    assert!(t.iter().all(|e| e.automatable && e.group != "source"));
}

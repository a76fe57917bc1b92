use stelarc::preset::CompressionPreset;

#[test]
fn every_preset_is_listed_once() {
    let all = CompressionPreset::all();
    assert_eq!(all.len(), 23);
    for (i, first) in all.iter().enumerate() {
        for second in all.iter().skip(i + 1) {
            assert_ne!(first, second);
        }
    }
}

#[test]
fn presets_are_listed_in_selector_order() {
    let all = CompressionPreset::all();
    assert_eq!(all[0], CompressionPreset::Instant);
    assert_eq!(all[7], CompressionPreset::Normal);
    assert_eq!(all[8], CompressionPreset::Fastlolz);
    assert_eq!(all[9], CompressionPreset::Best);
    assert_eq!(all[22], CompressionPreset::Experimental3);
}

#[test]
fn every_preset_has_flags() {
    for preset in CompressionPreset::all().iter() {
        let flags = preset.flags();
        assert!(!flags.is_empty());
        for flag in flags.iter() {
            assert!(flag.starts_with('-'));
        }
    }
}

#[test]
fn every_label_is_non_empty_and_unique() {
    let all = CompressionPreset::all();
    for (i, first) in all.iter().enumerate() {
        assert!(!first.label().is_empty());
        for second in all.iter().skip(i + 1) {
            assert_ne!(first.label(), second.label());
        }
    }
}

#[test]
fn labels_are_exact() {
    assert_eq!(CompressionPreset::Instant.label(), "Instant (-m1)");
    assert_eq!(CompressionPreset::HDDspeed.label(), "HDD speed   (-m2)");
    assert_eq!(CompressionPreset::Ultrafastlolz.label(), "lz4");
    assert_eq!(CompressionPreset::Normal.label(), "Normal      (-m4)");
    assert_eq!(CompressionPreset::Xtoolk.label(), "Xtool[reflate]+zstd ");
    assert_eq!(
        CompressionPreset::NormalPrecomplzmadelta.label(),
        "Normal+preshark+lzma (M4+lzma+preshark+delta)"
    );
}

#[test]
fn single_flag_presets() {
    assert_eq!(CompressionPreset::Instant.flags(), vec!["-m1"]);
    assert_eq!(CompressionPreset::HDDspeed.flags(), vec!["-m2"]);
    assert_eq!(CompressionPreset::Fastest.flags(), vec!["-m3"]);
    assert_eq!(CompressionPreset::Normal.flags(), vec!["-m4"]);
    assert_eq!(CompressionPreset::Best.flags(), vec!["-m5"]);
    assert_eq!(CompressionPreset::Experimental.flags(), vec!["-m=berserk+rep/maxsrep"]);
}

#[test]
fn flags_keep_their_order() {
    assert_eq!(
        CompressionPreset::UltrafastSREP.flags(),
        vec!["-m3d", "-s;", "-mc:lzma/lzma:max:16mb", "-mc:rep/maxsrep"]
    );
    assert_eq!(CompressionPreset::Maximum.flags(), vec!["-i2", "-m9d", "-s;"]);
    assert_eq!(
        CompressionPreset::MaximumLOLZ.flags(),
        vec![
            "-i2",
            "-m6d",
            "-s;",
            "-mc:lzma/lzma:max:32mb",
            "-mc$default,$obj:+precomp048x",
            "-mc:rep/maxsrep"
        ]
    );
    assert_eq!(
        CompressionPreset::Experimental3.flags(),
        vec!["-i1", "-m=xtool:o:t100p:g100p:mzlib:mpreflate:dd3+LOLZ_FAST"]
    );
}

//! The fixed table of compression presets: each one has a display label and
//! the ordered command-line flags that select it.

use crate::text::texts_of;
use vstd::prelude::*;

verus! {

/// A named compression configuration of the archiver.
#[derive(Clone, Copy, Debug, PartialEq, Eq, Structural)]
pub enum CompressionPreset {
    Instant,
    HDDspeed,
    UltrafastSREP,
    Ultrafastlolz,
    Fastest,
    FastSrepLZ,
    NormalPrecomplzmadelta,
    Normal,
    Best,
    Fastlolz,
    MediumLOLZ,
    Maximum,
    MaximumLOLZ,
    Xtooln,
    Xtool2,
    XtoolF,
    XtoolG,
    XtoolLOL,
    Xtoolh,
    Xtoolj,
    Xtoolk,
    Experimental,
    Experimental3,
}

impl CompressionPreset {
    /// Every preset, in the order in which a selector offers them.
    pub open spec fn all_presets() -> Seq<CompressionPreset> {
        seq![
            CompressionPreset::Instant,
            CompressionPreset::HDDspeed,
            CompressionPreset::UltrafastSREP,
            CompressionPreset::Ultrafastlolz,
            CompressionPreset::Fastest,
            CompressionPreset::FastSrepLZ,
            CompressionPreset::NormalPrecomplzmadelta,
            CompressionPreset::Normal,
            CompressionPreset::Fastlolz,
            CompressionPreset::Best,
            CompressionPreset::Maximum,
            CompressionPreset::MediumLOLZ,
            CompressionPreset::MaximumLOLZ,
            CompressionPreset::Xtooln,
            CompressionPreset::Xtool2,
            CompressionPreset::XtoolLOL,
            CompressionPreset::XtoolG,
            CompressionPreset::XtoolF,
            CompressionPreset::Xtoolh,
            CompressionPreset::Xtoolj,
            CompressionPreset::Xtoolk,
            CompressionPreset::Experimental,
            CompressionPreset::Experimental3,
        ]
    }

    /// The label shown for the preset.
    pub open spec fn label_text(self) -> Seq<char> {
        match self {
            CompressionPreset::Instant => "Instant (-m1)"@,
            CompressionPreset::HDDspeed => "HDD speed   (-m2)"@,
            CompressionPreset::UltrafastSREP => "UltrafastSREP   (M3+lzma+srep)"@,
            CompressionPreset::Ultrafastlolz => "lz4"@,
            CompressionPreset::Fastest => "Fastest     (-m3)"@,
            CompressionPreset::FastSrepLZ => "hightsrep  (M5+lzma+srep)"@,
            CompressionPreset::Normal => "Normal      (-m4)"@,
            CompressionPreset::NormalPrecomplzmadelta =>
                "Normal+preshark+lzma (M4+lzma+preshark+delta)"@,
            CompressionPreset::Best => "Best        (-m5)"@,
            CompressionPreset::Maximum => "Maximum       (-m9d)"@,
            CompressionPreset::Fastlolz => "xtool+luna"@,
            CompressionPreset::MediumLOLZ => "Xtool+Lzma"@,
            CompressionPreset::MaximumLOLZ => "M6PRECOMP+srep (M6+lzma+precomp+srep)"@,
            CompressionPreset::XtoolG => "Xtool[MGDeflate]+kraken+razorx"@,
            CompressionPreset::XtoolF => "Xtool[preflate]+kraken+zstd"@,
            CompressionPreset::Xtoolh => "Xtool[reflate]+LOLZ"@,
            CompressionPreset::Xtoolj => "Xtool[preflate]+LZMA"@,
            CompressionPreset::Xtoolk => "Xtool[reflate]+zstd "@,
            CompressionPreset::Xtooln => "Xtool[preflate]+razor"@,
            CompressionPreset::Experimental3 => "xtool+LOLZ_FAST"@,
            CompressionPreset::Experimental => "berserk+srep (berserk+srep)"@,
            CompressionPreset::XtoolLOL => "Xtool[MGDeflate]+kraken6+lzma"@,
            CompressionPreset::Xtool2 => "Xtool[preflate]+kraken+LOLZ_NORMAL"@,
        }
    }

    /// The flags that select the preset, in the order in which they are passed.
    pub open spec fn flag_texts(self) -> Seq<Seq<char>> {
        match self {
            CompressionPreset::Instant => seq!["-m1"@],
            CompressionPreset::HDDspeed => seq!["-m2"@],
            CompressionPreset::Fastest => seq!["-m3"@],
            CompressionPreset::UltrafastSREP => seq![
                "-m3d"@,
                "-s;"@,
                "-mc:lzma/lzma:max:16mb"@,
                "-mc:rep/maxsrep"@,
            ],
            CompressionPreset::Ultrafastlolz => seq!["-i2"@, "-m=lz4"@],
            CompressionPreset::FastSrepLZ => seq![
                "-i2"@,
                "-m5d"@,
                "-s;"@,
                "-mc:lzma/lzma:max:64mb"@,
                "-mc:rep/maxsrep"@,
            ],
            CompressionPreset::Normal => seq!["-m4"@],
            CompressionPreset::NormalPrecomplzmadelta => seq![
                "-m4"@,
                "-mc:lzma/lzma:max:32mb"@,
                "-mc$default,$obj:+preshark"@,
                "-mc-delta"@,
            ],
            CompressionPreset::Best => seq!["-m5"@],
            CompressionPreset::Maximum => seq!["-i2"@, "-m9d"@, "-s;"@],
            CompressionPreset::Fastlolz => seq![
                "-i2"@,
                "-m=xtool:o:t100p:g100p:mzlib:mpreflate:dd3+luna:dtb1:d256m:mtt1:mt16:mc1023"@,
            ],
            CompressionPreset::MaximumLOLZ => seq![
                "-i2"@,
                "-m6d"@,
                "-s;"@,
                "-mc:lzma/lzma:max:32mb"@,
                "-mc$default,$obj:+precomp048x"@,
                "-mc:rep/maxsrep"@,
            ],
            CompressionPreset::MediumLOLZ => seq![
                "-i2"@,
                "-m=xtool:o:t90p:g90p:mzlib:mpreflate:dd3+lzma:a1:mfbt4:fb273:mc1000000000:lc8:192mb"@,
            ],
            CompressionPreset::Experimental => seq!["-m=berserk+rep/maxsrep"@],
            CompressionPreset::XtoolG => seq![
                "-i2"@,
                "-m=xtool:o:t90p:g90p:mkraken:3:mzlib:mgdeflate:dd3:l1+razorx"@,
            ],
            CompressionPreset::XtoolLOL => seq![
                "-i2"@,
                "-m=xtool:o:t90p:g90p:mkraken:6:mzlib:mgdeflate:dd3+4x4:b64mb:lzma:ultra:bt4:fb273:lc8:mc1000000:256mb"@,
            ],
            CompressionPreset::XtoolF => seq![
                "-i2"@,
                "-m=xtool:o:t90p:g90p:mkraken:3:mpreflate:dd3+zstdx:-ultra:22:T0"@,
            ],
            CompressionPreset::Xtool2 => seq![
                "-i2"@,
                "-m=xtool:o:t90p:g100p:mkraken:4:mzlib:mpreflate:dd4+LOLZ_NORMAL"@,
            ],
            CompressionPreset::Xtoolh => seq![
                "-i2"@,
                "-m=xtool:o:t90p:g90p:mzlib:mpreflate:dd3+LOLZ_NORMAL"@,
            ],
            CompressionPreset::Xtoolj => seq![
                "-i2"@,
                "-m=xtool:o:t90p:g90p:mzlib:mpreflate:dd3+4x4:b256mb:lzma:ultra:bt4:fb273:lc8:mc1000000:256mb"@,
            ],
            CompressionPreset::Xtooln => seq![
                "-i2"@,
                "-m=xtool:o:t90p:g90p:mzlib:mpreflate:dd3+razorx"@,
            ],
            CompressionPreset::Xtoolk => seq![
                "-i2"@,
                "-m=xtool:o:t90p:g90p:mzlib:mpreflate:dd3+zstdx:10:T0"@,
            ],
            CompressionPreset::Experimental3 => seq![
                "-i1"@,
                "-m=xtool:o:t100p:g100p:mzlib:mpreflate:dd3+LOLZ_FAST"@,
            ],
        }
    }

    /// Every preset, once each.
    pub fn all() -> (list: [CompressionPreset; 23])
        ensures
            list@ == Self::all_presets(),
    {
        let list = [
            CompressionPreset::Instant,
            CompressionPreset::HDDspeed,
            CompressionPreset::UltrafastSREP,
            CompressionPreset::Ultrafastlolz,
            CompressionPreset::Fastest,
            CompressionPreset::FastSrepLZ,
            CompressionPreset::NormalPrecomplzmadelta,
            CompressionPreset::Normal,
            CompressionPreset::Fastlolz,
            CompressionPreset::Best,
            CompressionPreset::Maximum,
            CompressionPreset::MediumLOLZ,
            CompressionPreset::MaximumLOLZ,
            CompressionPreset::Xtooln,
            CompressionPreset::Xtool2,
            CompressionPreset::XtoolLOL,
            CompressionPreset::XtoolG,
            CompressionPreset::XtoolF,
            CompressionPreset::Xtoolh,
            CompressionPreset::Xtoolj,
            CompressionPreset::Xtoolk,
            CompressionPreset::Experimental,
            CompressionPreset::Experimental3,
        ];
        list
    }

    /// The label shown for the preset.
    pub fn label(&self) -> (text: &'static str)
        ensures
            text@ == self.label_text(),
    {
        match self {
            CompressionPreset::Instant => "Instant (-m1)",
            CompressionPreset::HDDspeed => "HDD speed   (-m2)",
            CompressionPreset::UltrafastSREP => "UltrafastSREP   (M3+lzma+srep)",
            CompressionPreset::Ultrafastlolz => "lz4",
            CompressionPreset::Fastest => "Fastest     (-m3)",
            CompressionPreset::FastSrepLZ => "hightsrep  (M5+lzma+srep)",
            CompressionPreset::Normal => "Normal      (-m4)",
            CompressionPreset::NormalPrecomplzmadelta =>
                "Normal+preshark+lzma (M4+lzma+preshark+delta)",
            CompressionPreset::Best => "Best        (-m5)",
            CompressionPreset::Maximum => "Maximum       (-m9d)",
            CompressionPreset::Fastlolz => "xtool+luna",
            CompressionPreset::MediumLOLZ => "Xtool+Lzma",
            CompressionPreset::MaximumLOLZ => "M6PRECOMP+srep (M6+lzma+precomp+srep)",
            CompressionPreset::XtoolG => "Xtool[MGDeflate]+kraken+razorx",
            CompressionPreset::XtoolF => "Xtool[preflate]+kraken+zstd",
            CompressionPreset::Xtoolh => "Xtool[reflate]+LOLZ",
            CompressionPreset::Xtoolj => "Xtool[preflate]+LZMA",
            CompressionPreset::Xtoolk => "Xtool[reflate]+zstd ",
            CompressionPreset::Xtooln => "Xtool[preflate]+razor",
            CompressionPreset::Experimental3 => "xtool+LOLZ_FAST",
            CompressionPreset::Experimental => "berserk+srep (berserk+srep)",
            CompressionPreset::XtoolLOL => "Xtool[MGDeflate]+kraken6+lzma",
            CompressionPreset::Xtool2 => "Xtool[preflate]+kraken+LOLZ_NORMAL",
        }
    }
    /// The flags that select the preset, in the order in which they are passed.
    pub fn flags(&self) -> (list: Vec<&'static str>)
        ensures
            texts_of(list@) == self.flag_texts(),
    {
        let list = match self {
                CompressionPreset::Instant => vec!["-m1"],
                CompressionPreset::HDDspeed => vec!["-m2"],
                CompressionPreset::Fastest => vec!["-m3"],
                CompressionPreset::UltrafastSREP => vec![
                    "-m3d",
                    "-s;",
                    "-mc:lzma/lzma:max:16mb",
                    "-mc:rep/maxsrep",
                ],
                CompressionPreset::Ultrafastlolz => vec!["-i2", "-m=lz4"],
                CompressionPreset::FastSrepLZ => vec![
                    "-i2",
                    "-m5d",
                    "-s;",
                    "-mc:lzma/lzma:max:64mb",
                    "-mc:rep/maxsrep",
                ],
                CompressionPreset::Normal => vec!["-m4"],
                CompressionPreset::NormalPrecomplzmadelta => vec![
                    "-m4",
                    "-mc:lzma/lzma:max:32mb",
                    "-mc$default,$obj:+preshark",
                    "-mc-delta",
                ],
                CompressionPreset::Best => vec!["-m5"],
                CompressionPreset::Maximum => vec!["-i2", "-m9d", "-s;"],
                CompressionPreset::Fastlolz => vec![
                    "-i2",
                    "-m=xtool:o:t100p:g100p:mzlib:mpreflate:dd3+luna:dtb1:d256m:mtt1:mt16:mc1023",
                ],
                CompressionPreset::MaximumLOLZ => vec![
                    "-i2",
                    "-m6d",
                    "-s;",
                    "-mc:lzma/lzma:max:32mb",
                    "-mc$default,$obj:+precomp048x",
                    "-mc:rep/maxsrep",
                ],
                CompressionPreset::MediumLOLZ => vec![
                    "-i2",
                    "-m=xtool:o:t90p:g90p:mzlib:mpreflate:dd3+lzma:a1:mfbt4:fb273:mc1000000000:lc8:192mb",
                ],
                CompressionPreset::Experimental => vec!["-m=berserk+rep/maxsrep"],
                CompressionPreset::XtoolG => vec![
                    "-i2",
                    "-m=xtool:o:t90p:g90p:mkraken:3:mzlib:mgdeflate:dd3:l1+razorx",
                ],
                CompressionPreset::XtoolLOL => vec![
                    "-i2",
                    "-m=xtool:o:t90p:g90p:mkraken:6:mzlib:mgdeflate:dd3+4x4:b64mb:lzma:ultra:bt4:fb273:lc8:mc1000000:256mb",
                ],
                CompressionPreset::XtoolF => vec![
                    "-i2",
                    "-m=xtool:o:t90p:g90p:mkraken:3:mpreflate:dd3+zstdx:-ultra:22:T0",
                ],
                CompressionPreset::Xtool2 => vec![
                    "-i2",
                    "-m=xtool:o:t90p:g100p:mkraken:4:mzlib:mpreflate:dd4+LOLZ_NORMAL",
                ],
                CompressionPreset::Xtoolh => vec![
                    "-i2",
                    "-m=xtool:o:t90p:g90p:mzlib:mpreflate:dd3+LOLZ_NORMAL",
                ],
                CompressionPreset::Xtoolj => vec![
                    "-i2",
                    "-m=xtool:o:t90p:g90p:mzlib:mpreflate:dd3+4x4:b256mb:lzma:ultra:bt4:fb273:lc8:mc1000000:256mb",
                ],
                CompressionPreset::Xtooln => vec![
                    "-i2",
                    "-m=xtool:o:t90p:g90p:mzlib:mpreflate:dd3+razorx",
                ],
                CompressionPreset::Xtoolk => vec![
                    "-i2",
                    "-m=xtool:o:t90p:g90p:mzlib:mpreflate:dd3+zstdx:10:T0",
                ],
                CompressionPreset::Experimental3 => vec![
                    "-i1",
                    "-m=xtool:o:t100p:g100p:mzlib:mpreflate:dd3+LOLZ_FAST",
                ],
            };
        list
    }
}

/// What tells one label from another: its length, and its first and last
/// character.
spec fn label_key(text: Seq<char>) -> (nat, char, char) {
    (text.len(), text[0], text[text.len() - 1])
}

/// The key of each preset's label.
spec fn preset_key(preset: CompressionPreset) -> (nat, char, char) {
    match preset {
        CompressionPreset::Instant => (13, 'I', ')'),
        CompressionPreset::HDDspeed => (17, 'H', ')'),
        CompressionPreset::UltrafastSREP => (30, 'U', ')'),
        CompressionPreset::Ultrafastlolz => (3, 'l', '4'),
        CompressionPreset::Fastest => (17, 'F', ')'),
        CompressionPreset::FastSrepLZ => (25, 'h', ')'),
        CompressionPreset::Normal => (17, 'N', ')'),
        CompressionPreset::NormalPrecomplzmadelta => (45, 'N', ')'),
        CompressionPreset::Best => (17, 'B', ')'),
        CompressionPreset::Maximum => (20, 'M', ')'),
        CompressionPreset::Fastlolz => (10, 'x', 'a'),
        CompressionPreset::MediumLOLZ => (10, 'X', 'a'),
        CompressionPreset::MaximumLOLZ => (37, 'M', ')'),
        CompressionPreset::XtoolG => (30, 'X', 'x'),
        CompressionPreset::XtoolF => (27, 'X', 'd'),
        CompressionPreset::Xtoolh => (19, 'X', 'Z'),
        CompressionPreset::Xtoolj => (20, 'X', 'A'),
        CompressionPreset::Xtoolk => (20, 'X', ' '),
        CompressionPreset::Xtooln => (21, 'X', 'r'),
        CompressionPreset::Experimental3 => (15, 'x', 'T'),
        CompressionPreset::Experimental => (27, 'b', ')'),
        CompressionPreset::XtoolLOL => (29, 'X', 'a'),
        CompressionPreset::Xtool2 => (34, 'X', 'L'),
    }
}

/// Reads the key of each label off its characters.
proof fn lemma_label_key(preset: CompressionPreset)
    ensures
        label_key(preset.label_text()) == preset_key(preset),
{
    reveal_strlit("Instant (-m1)");
    reveal_strlit("HDD speed   (-m2)");
    reveal_strlit("UltrafastSREP   (M3+lzma+srep)");
    reveal_strlit("lz4");
    reveal_strlit("Fastest     (-m3)");
    reveal_strlit("hightsrep  (M5+lzma+srep)");
    reveal_strlit("Normal      (-m4)");
    reveal_strlit("Normal+preshark+lzma (M4+lzma+preshark+delta)");
    reveal_strlit("Best        (-m5)");
    reveal_strlit("Maximum       (-m9d)");
    reveal_strlit("xtool+luna");
    reveal_strlit("Xtool+Lzma");
    reveal_strlit("M6PRECOMP+srep (M6+lzma+precomp+srep)");
    reveal_strlit("Xtool[MGDeflate]+kraken+razorx");
    reveal_strlit("Xtool[preflate]+kraken+zstd");
    reveal_strlit("Xtool[reflate]+LOLZ");
    reveal_strlit("Xtool[preflate]+LZMA");
    reveal_strlit("Xtool[reflate]+zstd ");
    reveal_strlit("Xtool[preflate]+razor");
    reveal_strlit("xtool+LOLZ_FAST");
    reveal_strlit("berserk+srep (berserk+srep)");
    reveal_strlit("Xtool[MGDeflate]+kraken6+lzma");
    reveal_strlit("Xtool[preflate]+kraken+LOLZ_NORMAL");
}

/// Every preset has at least one flag.
pub proof fn lemma_flags_nonempty(preset: CompressionPreset)
    ensures
        preset.flag_texts().len() >= 1,
{
}

/// Every preset has a label that is not empty.
pub proof fn lemma_label_nonempty(preset: CompressionPreset)
    ensures
        preset.label_text().len() >= 1,
{
    lemma_label_key(preset);
}

/// No two presets share a label.
pub proof fn lemma_labels_unique(first: CompressionPreset, second: CompressionPreset)
    requires
        first != second,
    ensures
        first.label_text() != second.label_text(),
{
    lemma_label_key(first);
    lemma_label_key(second);
}

/// The list of all presets names every preset, and none of them twice.
pub proof fn lemma_all_presets_complete(preset: CompressionPreset)
    ensures
        CompressionPreset::all_presets().len() == 23,
        CompressionPreset::all_presets().contains(preset),
        CompressionPreset::all_presets().no_duplicates(),
{
    let all = CompressionPreset::all_presets();
    let i: int = match preset {
        CompressionPreset::Instant => 0,
        CompressionPreset::HDDspeed => 1,
        CompressionPreset::UltrafastSREP => 2,
        CompressionPreset::Ultrafastlolz => 3,
        CompressionPreset::Fastest => 4,
        CompressionPreset::FastSrepLZ => 5,
        CompressionPreset::NormalPrecomplzmadelta => 6,
        CompressionPreset::Normal => 7,
        CompressionPreset::Fastlolz => 8,
        CompressionPreset::Best => 9,
        CompressionPreset::Maximum => 10,
        CompressionPreset::MediumLOLZ => 11,
        CompressionPreset::MaximumLOLZ => 12,
        CompressionPreset::Xtooln => 13,
        CompressionPreset::Xtool2 => 14,
        CompressionPreset::XtoolLOL => 15,
        CompressionPreset::XtoolG => 16,
        CompressionPreset::XtoolF => 17,
        CompressionPreset::Xtoolh => 18,
        CompressionPreset::Xtoolj => 19,
        CompressionPreset::Xtoolk => 20,
        CompressionPreset::Experimental => 21,
        CompressionPreset::Experimental3 => 22,
    };
}

} // verus!

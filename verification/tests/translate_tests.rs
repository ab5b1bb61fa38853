use ksj2gp::{
    Codelist, TranslateOptions, TranslationTables, extract_ksj_id, get_codelist_map,
    translate_colnames, translate_colnames_l01,
};

#[test]
fn test_extract_ksj_id() {
    let cases: &[(&str, &str, u16)] = &[
        ("m1000-17_27_GML.zip", "mesh1000", 2017),
        ("m500-17_44_GML.zip", "mesh500", 2017),
        ("1km_mesh_suikei_2018_shape_19.zip", "mesh1000h30", 2018),
        ("1km_mesh_2024_04_GML.zip", "mesh1000r6", 2024),
        ("500m_mesh_suikei_2018_shape_23.zip", "mesh500h30", 2018),
        ("500m_mesh_2024_GML.zip", "mesh500r6", 2018),
        ("250m_mesh_2024_GML.zip", "mesh250r6", 2018),
        ("A09-06_02_GML.zip", "A09", 2006),
        ("A10-06_03_GML.zip", "A10", 2006),
        ("A11-15_31_GML.zip", "A11", 2015),
        ("A12-06_04_GML.zip", "A12", 2006),
        ("A13-06_14_GML.zip", "A13", 2006),
        ("A15-15_12_GML.zip", "A15", 2015),
        ("A16-75_34_GML.zip", "A16", 1975),
        ("A17-901001_20_GML.zip", "A17", 1990),
        ("A18-051001_16_GML.zip", "A18", 2005),
        ("A18s-a-10_GML.zip", "A18s_a", 2010),
        ("A19-651001_45_GML.zip", "A19", 1965),
        ("A19s-05_17_GML.zip", "A19s", 2005),
        ("A19s-a-05_17_GML.zip", "A19s", 2005),
        ("A20-601001_46_GML.zip", "A20", 1960),
        ("A20s-05_46_GML.zip", "A20s", 2005),
        ("A21-001001_13_GML.zip", "A21", 2000),
        ("A21s-10_13_GML.zip", "A21s", 2010),
        ("A22-070402_32_GML.zip", "A22", 2007),
        ("A22-m-14_33_GML.zip", "A22-m", 2014),
        ("A22s-00_19_GML.zip", "A22s", 2000),
        ("A23-051001_46_GML.zip", "A23", 2005),
        ("A24-901001_36_GML.zip", "A24", 1990),
        ("A25-930928_35_GML.zip", "A25", 1993),
        ("A27-21_10_GML.zip", "A27", 2021),
        ("A28-10_GML.zip", "A28", 2010),
        ("A29-11_39_GML.zip", "A29", 2011),
        ("A30a5-11_5438-jgd_GML.zip", "A30a5", 2011),
        ("A30b-11_GML.zip", "A30b", 2011),
        ("A31a-24_81_10_GML.zip", "A31a", 2024),
        ("A31b-24_10_5540_GML.zip", "A31b", 2024),
        ("A32-21_29_GML.zip", "A32", 2021),
        ("A33-24_00_GML.zip", "A33", 2024),
        ("A34-180316_GML.zip", "A34", 2018),
        ("A35a-14_46_GML.zip", "A35a", 2014),
        ("A35b-14_26_GML.zip", "A35b", 2014),
        ("A35c-14_07_GML.zip", "A35c", 2014),
        ("A37-15_39_GML.zip", "A37", 2015),
        ("A38-20_27_GML.zip", "A38", 2020),
        ("A39-15_GML.zip", "A39", 2015),
        ("A40-20_14_GML.zip", "A40", 2020),
        ("A42-18_GML.zip", "A42", 2018),
        ("A43-18_GML.zip", "A43", 2018),
        ("A44-18_GML.zip", "A44", 2018),
        ("A45-19_41_GML.zip", "A45", 2019),
        ("A46-20_04_GML.zip", "A46", 2020),
        ("A47-21_52_GML.zip", "A47", 2021),
        ("A48-21_17_GML.zip", "A48", 2021),
        ("A49-20_13_GML.zip", "A49", 2020),
        ("A50-20_14_GML.zip", "A50", 2020),
        ("A51-24_20_GML.zip", "A51", 2024),
        ("A52-23_25_GML.zip", "A52", 2023),
        ("A53-23-81_GML.zip", "A53", 2023),
        ("A54-23_GML.zip", "A54", 2023),
        ("A55-22_01100_SHP.zip", "A55", 2022),
        ("C02-06_GML.zip", "C02", 2006),
        ("C09-06_GML.zip", "C09", 2006),
        ("C23-06_28_GML.zip", "C23", 2006),
        ("C28-13.zip", "C28", 2013),
        ("G02-12_5238-jgd_GML.zip", "G02", 2012),
        ("G04-a-11_5940-jgd_GML.zip", "G04a", 2011),
        ("G04-c-11_5439-jgd_GML.zip", "G04c", 2011),
        ("G04-d-11_5338-jgd_GML.zip", "G04d", 2011),
        ("G08-15_43_GML.zip", "G08", 2015),
        ("L01-87_05_GML.zip", "L01", 1987),
        ("L02-09_02_GML.zip", "L02", 2009),
        ("L03-a-21_5339-jgd2011_GML.zip", "L03-a", 2021),
        ("L03-b-21_5336-jgd2011_GML.zip", "L03-b", 2021),
        ("L03-b-c-21_5339-jgd2011_GML.zip", "L03-b-c", 2021),
        ("L03-b-u-21_5539-jgd2011_GML.zip", "L03-b-u", 2021),
        ("L05-1-09_04_GML.zip", "L05-1", 2009),
        ("L05-2-09_04_GML.zip", "L05-2", 2009),
        ("N02-05_GML.zip", "N02", 2005),
        ("N03-170101_32_GML.zip", "N03", 2017),
        ("N04-78_5439-tky_GML.zip", "N04", 1978),
        ("N05-15_GML.zip", "N05", 2015),
        ("N06-16_GML.zip", "N06", 2016),
        ("N07-22_GML.zip", "N07", 2022),
        ("N08-18_GML.zip", "N08", 2018),
        ("N09-12_GML.zip", "N09", 2012),
        ("N10-20_19_GML.zip", "N10", 2020),
        ("N11-13_38.zip", "N11", 2013),
        ("N12-21_37_GML.zip", "N12", 2021),
        ("P02-90_43_GML.zip", "P02", 1990),
        ("P03-13.zip", "P03", 2013),
        ("P04-14_47_GML.zip", "P04", 2014),
        ("P05-10_27_GML.zip", "P05", 2010),
        ("P07-15_29_GML.zip", "P07", 2015),
        ("P09-10_4830-jgd_GML.zip", "P09", 2010),
        ("P11-22_01_SHP.zip", "P11", 2022),
        ("P12-14_17_GML.zip", "P12", 2014),
        ("P13-11_42_GML.zip", "P13", 2011),
        ("P14-15_33_GML.zip", "P14", 2015),
        ("P15-12_28_GML.zip", "P15", 2012),
        ("P16-12_22_GML.zip", "P16", 2012),
        ("P17-12_26_GML.zip", "P17", 2012),
        ("P18-12_30_GML.zip", "P18", 2012),
        ("P19-12_44_GML.zip", "P19", 2012),
        ("P20-12_08_GML.zip", "P20", 2012),
        ("P21-12_39_GML.zip", "P21", 2012),
        ("P22-12_11_GML.zip", "P22", 2012),
        ("P23-12_22_GML.zip", "P23", 2012),
        ("P24-12_GML.zip", "P24", 2012),
        ("P26-13_34.zip", "P26", 2013),
        ("P27-13_21.zip", "P27", 2013),
        ("P28-13_03.zip", "P28", 2013),
        ("P29-13_01.zip", "P29", 2013),
        ("P30-13_37.zip", "P30", 2013),
        ("P31-13_13.zip", "P31", 2013),
        ("P32-14_35_GML.zip", "P32", 2014),
        ("P33-14_44_GML.zip", "P33", 2014),
        ("P34-14_03_GML.zip", "P34", 2014),
        ("P35-18_GML.zip", "P35", 2018),
        ("P36-23_01_SHP.zip", "P36", 2023),
        ("S05-a-12_KINKI_GML.zip", "S05-a", 2012),
        ("S05-b-10_KINKI_GML.zip", "S05-b", 2010),
        ("S05-c-10_SYUTO_GML.zip", "S05-c", 2010),
        ("S05-d-04_GML.zip", "S05-d", 2004),
        ("S10a-14_GML.zip", "S10a", 2014),
        ("S10b-14_GML.zip", "S10b", 2014),
        ("S12-19_GML.zip", "S12", 2019),
        ("W01-05_GML.zip", "W01", 2005),
        ("W05-08_21_GML.zip", "W05", 2008),
        ("W09-05_GML.zip", "W09", 2005),
    ];

    for &(filename, expected_id, expected_year) in cases {
        let (actual_id, actual_year) = extract_ksj_id(filename).unwrap();
        assert_eq!(
            (actual_id.as_str(), actual_year),
            (expected_id, expected_year)
        );
    }
}

#[test]
fn unrecognized_filename_is_an_error() {
    assert!(extract_ksj_id("notes.txt").is_err());
    assert!(extract_ksj_id("").is_err());
}

fn codelist(pairs: &[(&str, &str)]) -> Codelist {
    Codelist {
        entries: pairs
            .iter()
            .map(|(k, v)| (k.to_string(), v.to_string()))
            .collect(),
    }
}

fn base_tables() -> TranslationTables {
    let mut tables = TranslationTables::new();
    for (code, name) in [
        ("A03_001", "行政区域コード"),
        ("A03_002", "都道府県名"),
        ("A03_003", "郡市名"),
        ("A03_004", "区町村名"),
        ("A03_005", "陸水等区分"),
        ("A03_006", "区域区分"),
        ("A03_007", "区域コード"),
        ("A03_008", "備考"),
    ] {
        tables.colnames.push((code.to_string(), name.to_string()));
    }
    tables.a42_normal = (0..9).map(|i| format!("歴史的風土保存区域の列{i}")).collect();
    tables.a42_special = (0..10).map(|i| format!("歴史的風土特別保存地区の列{i}")).collect();
    tables.l01_1983 = (1..=32).map(|i| format!("地価公示1983年版の列{i}")).collect();
    tables.l01_2014 = (1..=47).map(|i| format!("地価公示2014年版の列{i}")).collect();
    tables.l01_2018 = (1..=55).map(|i| format!("地価公示2018年版の列{i}")).collect();
    tables.l01_2022 = (1..=60).map(|i| format!("地価公示2022年版の列{i}")).collect();
    tables.l01_2024 = (1..=61).map(|i| format!("地価公示2024年版の列{i}")).collect();
    tables.codelists.push((
        "A03SectionTypeCdKinki".to_string(),
        codelist(&[("1", "既成都市区域")]),
    ));
    tables.codelists.push((
        "A03SectionTypeCdCyubu".to_string(),
        codelist(&[("1", "都市整備区域(［保全区域］との重複無し")]),
    ));
    tables.codelists.push((
        "A03SectionTypeCdSyuto".to_string(),
        codelist(&[("1", "既成市街地")]),
    ));
    tables.codelists.push((
        "A42HistoricalDistrictType".to_string(),
        codelist(&[("2", "第１種歴史的風土保存地区（明日香村のみ）")]),
    ));
    tables
}

fn a03_options() -> TranslateOptions {
    TranslateOptions {
        translate_colnames: true,
        translate_contents: false,
        ignore_translation_errors: false,
        ksj_id: "A03".to_string(),
        year: 2024,
        target_shp: String::new(),
    }
}

#[test]
fn translate_a03_columns() {
    let tables = base_tables();
    let options = a03_options();
    let cases = [
        ("A03_001", "行政区域コード"),
        ("A03_002", "都道府県名"),
        ("A03_003", "郡市名"),
        ("A03_004", "区町村名"),
        ("A03_005", "陸水等区分"),
        ("A03_006", "区域区分"),
        ("A03_007", "区域コード"),
        ("A03_008", "備考"),
    ];

    for (code, expected) in cases {
        let actual = translate_colnames(&tables, code, &options).unwrap();
        assert_eq!(actual, expected);
    }
}

fn a42_options(target_shp: &str) -> TranslateOptions {
    TranslateOptions {
        translate_colnames: true,
        translate_contents: false,
        ignore_translation_errors: false,
        ksj_id: "A42".to_string(),
        year: 2024,
        target_shp: target_shp.to_string(),
    }
}

#[test]
fn translate_a42_normal_columns() {
    let tables = base_tables();
    let options = a42_options("Preservation_Area_of_Historic_Landscape.shp");
    let cases = [
        ("A42_000", tables.a42_normal[0].clone()),
        ("A42_003", tables.a42_normal[3].clone()),
        ("A42_008", tables.a42_normal[8].clone()),
    ];

    for (code, expected) in cases {
        let actual = translate_colnames(&tables, code, &options).unwrap();
        assert_eq!(actual, expected);
    }
}

#[test]
fn translate_a42_special_columns() {
    let tables = base_tables();
    let options = a42_options("Spacial_Preservation_Area_of_Historic_Landscape.shp");
    let cases = [
        ("A42_000", tables.a42_special[0].clone()),
        ("A42_003", tables.a42_special[3].clone()),
        ("A42_009", tables.a42_special[9].clone()),
    ];

    for (code, expected) in cases {
        let actual = translate_colnames(&tables, code, &options).unwrap();
        assert_eq!(actual, expected);
    }
}

#[test]
fn translate_l01_columns_multiple_years() {
    let tables = base_tables();
    let translate_l01 =
        |code: &str, year: u16| translate_colnames_l01(&tables, code, year).unwrap();

    assert_eq!(translate_l01("L01_001", 2013), tables.l01_1983[0]);
    assert_eq!(translate_l01("L01_031", 2010), tables.l01_1983[30]);

    assert_eq!(translate_l01("L01_047", 2014), tables.l01_2014[46]);
    assert_eq!(translate_l01("L01_050", 2015), "調査価格_1985年");
    assert_eq!(translate_l01("L01_090", 2015), "属性移動_1993年");

    assert_eq!(translate_l01("L01_055", 2019), tables.l01_2018[54]);
    assert_eq!(translate_l01("L01_058", 2020), "調査価格_1985年");
    assert_eq!(translate_l01("L01_100", 2018), "属性移動_1992年");

    assert_eq!(translate_l01("L01_060", 2022), tables.l01_2022[59]);
    assert_eq!(translate_l01("L01_063", 2023), "調査価格_1985年");
    assert_eq!(translate_l01("L01_120", 2022), "属性移動_2003年");

    assert_eq!(translate_l01("L01_061", 2024), tables.l01_2024[60]);
    assert_eq!(translate_l01("L01_065", 2024), "調査価格_1986年");
    assert_eq!(translate_l01("L01_120", 2024), "属性移動_2000年");
}

#[test]
fn unknown_column_is_an_error_unless_ignored() {
    let tables = base_tables();
    let mut options = a03_options();
    options.ksj_id = "N99".to_string();
    assert!(translate_colnames(&tables, "N99_001", &options).is_err());
    options.ignore_translation_errors = true;
    assert_eq!(translate_colnames(&tables, "N99_001", &options).unwrap(), "N99_001");
}

#[test]
fn disabled_translation_passes_ids_through() {
    let tables = base_tables();
    let mut options = a03_options();
    options.translate_colnames = false;
    assert_eq!(translate_colnames(&tables, "A03_001", &options).unwrap(), "A03_001");
}

fn assert_codelist_label(col_id: &str, year: u16, target_shp: &str, code: &str, expected_label: &str) {
    let tables = base_tables();
    let map = get_codelist_map(&tables, col_id, year, target_shp)
        .unwrap_or_else(|| panic!("missing map for {target_shp}"));
    let actual = map
        .get(code)
        .unwrap_or_else(|| panic!("missing code {code} for {target_shp}"));
    assert_eq!(actual.as_str(), expected_label);
}

#[test]
fn test_a03() {
    let cases = [
        ("A03-03_KINKI-g_ThreeMajorMetroPlanArea.shp", "既成都市区域"),
        (
            "A03-03_CHUBU-g_ThreeMajorMetroPlanArea.shp",
            "都市整備区域(［保全区域］との重複無し",
        ),
        ("A03-03_SYUTO-g_ThreeMajorMetroPlanArea.shp", "既成市街地"),
    ];

    for (target_shp, expected_label) in cases {
        assert_codelist_label("A03_006", 2024, target_shp, "1", expected_label);
    }
}

#[test]
fn test_a42_special_shapefile() {
    assert_codelist_label(
        "A42_005",
        2024,
        "Spacial_Preservation_Area_of_Historic_Landscape.shp",
        "2",
        "第１種歴史的風土保存地区（明日香村のみ）",
    );
}

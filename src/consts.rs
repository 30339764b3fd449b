use vstd::prelude::*;

verus! {

/// `MDLX` read as a little-endian `u32`.
pub const MDLX_TAG: u32 = 1481393229;

// Main chunks
/// `VERS` read as a little-endian `u32`.
pub const VERS_TAG: u32 = 1397900630;
/// `MODL` read as a little-endian `u32`.
pub const MODL_TAG: u32 = 1279545165;
/// `SEQS` read as a little-endian `u32`.
pub const SEQS_TAG: u32 = 1397835091;
/// `GLBS` read as a little-endian `u32`.
pub const GLBS_TAG: u32 = 1396853831;
/// `TEXS` read as a little-endian `u32`.
pub const TEXS_TAG: u32 = 1398293844;
/// `TXAN` read as a little-endian `u32`.
pub const TXAN_TAG: u32 = 1312905300;
/// `GEOS` read as a little-endian `u32`.
pub const GEOS_TAG: u32 = 1397704007;
/// `GEOA` read as a little-endian `u32`.
pub const GEOA_TAG: u32 = 1095714119;
/// `BONE` read as a little-endian `u32`.
pub const BONE_TAG: u32 = 1162760002;
/// `MTLS` read as a little-endian `u32`.
pub const MTLS_TAG: u32 = 1397511245;
/// `LITE` read as a little-endian `u32`.
pub const LITE_TAG: u32 = 1163151692;
/// `HELP` read as a little-endian `u32`.
pub const HELP_TAG: u32 = 1347175752;
/// `ATCH` read as a little-endian `u32`.
pub const ATCH_TAG: u32 = 1212372033;
/// `PIVT` read as a little-endian `u32`.
pub const PIVT_TAG: u32 = 1414941008;
/// `PREM` read as a little-endian `u32`.
pub const PREM_TAG: u32 = 1296388688;
/// `PRE2` read as a little-endian `u32`.
pub const PRE2_TAG: u32 = 843403856;
/// `RIBB` read as a little-endian `u32`.
pub const RIBB_TAG: u32 = 1111640402;
/// `EVTS` read as a little-endian `u32`.
pub const EVTS_TAG: u32 = 1398036037;
/// `CAMS` read as a little-endian `u32`.
pub const CAMS_TAG: u32 = 1397571907;
/// `CLID` read as a little-endian `u32`.
pub const CLID_TAG: u32 = 1145654339;

// Node
/// `KGTR` read as a little-endian `u32`.
pub const KGTR_TAG: u32 = 1381254987;
/// `KGRT` read as a little-endian `u32`.
pub const KGRT_TAG: u32 = 1414678347;
/// `KGSC` read as a little-endian `u32`.
pub const KGSC_TAG: u32 = 1129531211;

// Layer
/// `KMTF` read as a little-endian `u32`.
pub const KMTF_TAG: u32 = 1179929931;
/// `KMTA` read as a little-endian `u32`.
pub const KMTA_TAG: u32 = 1096043851;
/// `KMTE` read as a little-endian `u32`.
pub const KMTE_TAG: u32 = 1163152715;
/// `KFC3` read as a little-endian `u32`.
pub const KFC3_TAG: u32 = 860046923;
/// `KFCA` read as a little-endian `u32`.
pub const KFCA_TAG: u32 = 1094927947;
/// `KFTC` read as a little-endian `u32`.
pub const KFTC_TAG: u32 = 1129596491;

// Texture animation
/// `KTAT` read as a little-endian `u32`.
pub const KTAT_TAG: u32 = 1413567563;
/// `KTAR` read as a little-endian `u32`.
pub const KTAR_TAG: u32 = 1380013131;
/// `KTAS` read as a little-endian `u32`.
pub const KTAS_TAG: u32 = 1396790347;

// Geoset Animation
/// `KGAO` read as a little-endian `u32`.
pub const KGAO_TAG: u32 = 1329678155;
/// `KGAC` read as a little-endian `u32`.
pub const KGAC_TAG: u32 = 1128351563;

// Light
/// `KLAS` read as a little-endian `u32`.
pub const KLAS_TAG: u32 = 1396788299;
/// `KLAE` read as a little-endian `u32`.
pub const KLAE_TAG: u32 = 1161907275;
/// `KLAC` read as a little-endian `u32`.
pub const KLAC_TAG: u32 = 1128352843;
/// `KLAI` read as a little-endian `u32`.
pub const KLAI_TAG: u32 = 1229016139;
/// `KLBI` read as a little-endian `u32`.
pub const KLBI_TAG: u32 = 1229081675;
/// `KLBC` read as a little-endian `u32`.
pub const KLBC_TAG: u32 = 1128418379;
/// `KLAV` read as a little-endian `u32`.
pub const KLAV_TAG: u32 = 1447119947;

// Attachment
/// `KATV` read as a little-endian `u32`.
pub const KATV_TAG: u32 = 1448362315;

// Particle emitter
/// `KPEE` read as a little-endian `u32`.
pub const KPEE_TAG: u32 = 1162170443;
/// `KPEG` read as a little-endian `u32`.
pub const KPEG_TAG: u32 = 1195724875;
/// `KPLN` read as a little-endian `u32`.
pub const KPLN_TAG: u32 = 1313624139;
/// `KPLT` read as a little-endian `u32`.
pub const KPLT_TAG: u32 = 1414287435;
/// `KPEL` read as a little-endian `u32`.
pub const KPEL_TAG: u32 = 1279610955;
/// `KPES` read as a little-endian `u32`.
pub const KPES_TAG: u32 = 1397051467;
/// `KPEV` read as a little-endian `u32`.
pub const KPEV_TAG: u32 = 1447383115;

// Particle emitter 2
/// `KP2E` read as a little-endian `u32`.
pub const KP2E_TAG: u32 = 1160925259;
/// `KP2G` read as a little-endian `u32`.
pub const KP2G_TAG: u32 = 1194479691;
/// `KP2L` read as a little-endian `u32`.
pub const KP2L_TAG: u32 = 1278365771;
/// `KP2S` read as a little-endian `u32`.
pub const KP2S_TAG: u32 = 1395806283;
/// `KP2V` read as a little-endian `u32`.
pub const KP2V_TAG: u32 = 1446137931;
/// `KP2R` read as a little-endian `u32`.
pub const KP2R_TAG: u32 = 1379029067;
/// `KP2N` read as a little-endian `u32`.
pub const KP2N_TAG: u32 = 1311920203;
/// `KP2W` read as a little-endian `u32`.
pub const KP2W_TAG: u32 = 1462915147;

// Ribbon emitter
/// `KRVS` read as a little-endian `u32`.
pub const KRVS_TAG: u32 = 1398166091;
/// `KRHA` read as a little-endian `u32`.
pub const KRHA_TAG: u32 = 1095258699;
/// `KRHB` read as a little-endian `u32`.
pub const KRHB_TAG: u32 = 1112035915;
/// `KRAL` read as a little-endian `u32`.
pub const KRAL_TAG: u32 = 1279349323;
/// `KRCO` read as a little-endian `u32`.
pub const KRCO_TAG: u32 = 1329812043;
/// `KRTX` read as a little-endian `u32`.
pub const KRTX_TAG: u32 = 1481921099;

// Camera
/// `KCTR` read as a little-endian `u32`.
pub const KCTR_TAG: u32 = 1381253963;
/// `KCRL` read as a little-endian `u32`.
pub const KCRL_TAG: u32 = 1280459595;
/// `KTTR` read as a little-endian `u32`.
pub const KTTR_TAG: u32 = 1381258315;

// Corn emitter
/// `KPPA` read as a little-endian `u32`.
pub const KPPA_TAG: u32 = 1095782475;
/// `KPPC` read as a little-endian `u32`.
pub const KPPC_TAG: u32 = 1129336907;
/// `KPPE` read as a little-endian `u32`.
pub const KPPE_TAG: u32 = 1162891339;
/// `KPPL` read as a little-endian `u32`.
pub const KPPL_TAG: u32 = 1280331851;
/// `KPPS` read as a little-endian `u32`.
pub const KPPS_TAG: u32 = 1397772363;
/// `KPPV` read as a little-endian `u32`.
pub const KPPV_TAG: u32 = 1448104011;

// Geoset specific
/// `VRTX` read as a little-endian `u32`.
pub const VRTX_TAG: u32 = 1481921110;
/// `NRMS` read as a little-endian `u32`.
pub const NRMS_TAG: u32 = 1397576270;
/// `PTYP` read as a little-endian `u32`.
pub const PTYP_TAG: u32 = 1348031568;
/// `PCNT` read as a little-endian `u32`.
pub const PCNT_TAG: u32 = 1414415184;
/// `PVTX` read as a little-endian `u32`.
pub const PVTX_TAG: u32 = 1481922128;
/// `GNDX` read as a little-endian `u32`.
pub const GNDX_TAG: u32 = 1480871495;
/// `MTGC` read as a little-endian `u32`.
pub const MTGC_TAG: u32 = 1128748109;
/// `MATS` read as a little-endian `u32`.
pub const MATS_TAG: u32 = 1398030669;
/// `UVAS` read as a little-endian `u32`.
pub const UVAS_TAG: u32 = 1396790869;
/// `UVBS` read as a little-endian `u32`.
pub const UVBS_TAG: u32 = 1396856405;

} // verus!

use greek_morph::word::GreekWordParsing;
use itertools::Itertools;

/// Every code of `corpus` that does not decode, with the reason.
fn failures(corpus: &str) -> Vec<String> {
    corpus
        .split_whitespace()
        .filter_map(|input| match GreekWordParsing::parse(input) {
            Ok(_) => None,
            Err(e) => Some(format!("Code: \"{}\"\nReason: {:?}", input, e)),
        })
        .collect_vec()
}

fn assert_all_decode(corpus: &str) {
    let errors = failures(corpus);
    if errors.len() > 0 {
        panic!("{}\nTotal errors: {}", errors.join("\n\n"), errors.len());
    }
}

/// Every distinct tag of the New Testament tables, in sorted order.
const CODES: &str = "
        Adj Adj-AFP Adj-AFP-C Adj-AFS Adj-AFS-C Adj-AFS-S Adj-AMP Adj-AMP-C Adj-AMS Adj-AMS-C
        Adj-ANP Adj-ANP-C Adj-ANP-S Adj-ANS Adj-ANS-C Adj-ANS-S Adj-DFP Adj-DFP-C Adj-DFS
        Adj-DFS-C Adj-DFS-S Adj-DMP Adj-DMP-C Adj-DMS Adj-DMS-C Adj-DMS-S Adj-DNP Adj-DNP-S
        Adj-DNS Adj-DNS-C Adj-DNS-S Adj-GFP Adj-GFP-S Adj-GFS Adj-GFS-C Adj-GMP Adj-GMP-C
        Adj-GMP-S Adj-GMS Adj-GMS-C Adj-GMS-S Adj-GNP Adj-GNP-C Adj-GNP-S Adj-GNS Adj-GNS-S
        Adj-NFP Adj-NFP-C Adj-NFP-S Adj-NFS Adj-NFS-C Adj-NFS-S Adj-NMP Adj-NMP-C Adj-NMS
        Adj-NMS-C Adj-NMS-S Adj-NNP Adj-NNP-C Adj-NNS Adj-NNS-C Adj-VFS Adj-VMP Adj-VMP-C
        Adj-VMS Adj-VMS-S Adj-VNP Adj-VNS Adv Adv-C Adv-S Art-AFP Art-AFS Art-AMP Art-AMS
        Art-ANP Art-ANS Art-DFP Art-DFS Art-DMP Art-DMS Art-DNP Art-DNS Art-GFP Art-GFS Art-GMP
        Art-GMS Art-GNP Art-GNS Art-NFP Art-NFS Art-NMP Art-NMS Art-NNP Art-NNS Art-VFP Art-VFS
        Art-VMP Art-VMS Art-VNP Art-VNS Conj DPro-AFP DPro-AFS DPro-AMP DPro-AMS DPro-ANP
        DPro-ANS DPro-DFP DPro-DFS DPro-DMP DPro-DMS DPro-DNP DPro-DNS DPro-GFP DPro-GFS
        DPro-GMP DPro-GMS DPro-GNP DPro-GNS DPro-NFP DPro-NFS DPro-NMP DPro-NMS DPro-NNP
        DPro-NNS Heb I IPro-AFP IPro-AFS IPro-AMP IPro-AMS IPro-ANP IPro-ANS IPro-DFS IPro-DMP
        IPro-DMS IPro-DNS IPro-GFP IPro-GFS IPro-GMP IPro-GMS IPro-GNP IPro-GNS IPro-NFP
        IPro-NFS IPro-NMP IPro-NMS IPro-NNP IPro-NNS Indec IntPrtcl N N-AFP N-AFS N-AMP N-AMS
        N-ANP N-ANS N-DFP N-DFS N-DMP N-DMS N-DNP N-DNS N-GFP N-GFS N-GMP N-GMS N-GNP N-GNS
        N-NFP N-NFS N-NMP N-NMS N-NNP N-NNS N-VFP N-VFS N-VMP N-VMS N-VNP N-VNS PPro-A1P
        PPro-A1S PPro-A2P PPro-A2S PPro-AF1P PPro-AF1S PPro-AF2P PPro-AF2S PPro-AF3P PPro-AF3S
        PPro-AM1P PPro-AM1S PPro-AM2P PPro-AM2S PPro-AM3P PPro-AM3S PPro-AN1P PPro-AN1S
        PPro-AN2P PPro-AN2S PPro-AN3P PPro-AN3S PPro-D1P PPro-D1S PPro-D2P PPro-D2S PPro-DF1P
        PPro-DF1S PPro-DF2P PPro-DF2S PPro-DF3P PPro-DF3S PPro-DM1P PPro-DM1S PPro-DM2P
        PPro-DM2S PPro-DM3P PPro-DM3S PPro-DN1P PPro-DN1S PPro-DN3P PPro-DN3S PPro-G1P PPro-G1S
        PPro-G2P PPro-G2S PPro-GF1P PPro-GF1S PPro-GF2P PPro-GF2S PPro-GF3P PPro-GF3S PPro-GM1S
        PPro-GM2S PPro-GM3P PPro-GM3S PPro-GN1P PPro-GN3P PPro-GN3S PPro-N1P PPro-N1S PPro-N2P
        PPro-N2S PPro-NF1P PPro-NF1S PPro-NF2P PPro-NF3S PPro-NFS PPro-NM1P PPro-NM1S PPro-NM2P
        PPro-NM2S PPro-NM3P PPro-NM3S PPro-NN1P PPro-NN1S PPro-NN2P PPro-NN2S PPro-NN3P
        PPro-NN3S Prep Prtcl RecPro-AMP RecPro-DMP RecPro-DNP RecPro-GMP RefPro-AF3P
        RefPro-AF3S RefPro-AM3P RefPro-AM3S RefPro-AN3P RefPro-DF3P RefPro-DF3S RefPro-DM3P
        RefPro-DM3S RefPro-GF3P RefPro-GF3S RefPro-GM3P RefPro-GM3S RefPro-GN3P RefPro-GN3S
        RelPro-AFP RelPro-AFS RelPro-AMP RelPro-AMS RelPro-ANP RelPro-ANS RelPro-DFP RelPro-DFS
        RelPro-DMP RelPro-DMS RelPro-DNP RelPro-DNS RelPro-GFP RelPro-GFS RelPro-GMP RelPro-GMS
        RelPro-GNP RelPro-GNS RelPro-NFP RelPro-NFS RelPro-NMP RelPro-NMS RelPro-NNP RelPro-NNS
        V-AIA-1P V-AIA-1S V-AIA-2P V-AIA-2S V-AIA-3P V-AIA-3S V-AIM-1P V-AIM-1S V-AIM-2P
        V-AIM-2S V-AIM-3P V-AIM-3S V-AIP-1P V-AIP-1S V-AIP-2P V-AIP-2S V-AIP-3P V-AIP-3S
        V-AMA-2P V-AMA-2S V-AMA-3P V-AMA-3S V-AMM-2P V-AMM-2S V-AMM-3P V-AMM-3S V-AMP-2P
        V-AMP-2S V-AMP-3P V-AMP-3S V-ANA V-ANM V-ANM/P V-ANP V-AOA-3P V-AOA-3S V-AOM-1S
        V-AOM-3S V-AOP-3S V-APA-AFP V-APA-AFS V-APA-AMP V-APA-AMS V-APA-ANP V-APA-ANS V-APA-DFP
        V-APA-DFS V-APA-DMP V-APA-DMS V-APA-GFS V-APA-GMP V-APA-GMS V-APA-GNS V-APA-NFP
        V-APA-NFS V-APA-NMP V-APA-NMS V-APA-NNP V-APA-NNS V-APM-AFS V-APM-AMP V-APM-AMS
        V-APM-ANP V-APM-ANS V-APM-DMP V-APM-DNP V-APM-GFP V-APM-GFS V-APM-GMP V-APM-GMS
        V-APM-GNP V-APM-GNS V-APM-NFP V-APM-NFS V-APM-NMP V-APM-NMS V-APM-NNS V-APM/P-ANP
        V-APM/P-GFS V-APM/P-NMS V-APP-AFS V-APP-AMP V-APP-AMS V-APP-ANP V-APP-ANS V-APP-DFS
        V-APP-DMS V-APP-DNP V-APP-DNS V-APP-GFP V-APP-GFS V-APP-GMP V-APP-GMS V-APP-GNP
        V-APP-GNS V-APP-NFP V-APP-NFS V-APP-NMP V-APP-NMS V-APP-NNP V-APP-NNS V-ASA-1P V-ASA-1S
        V-ASA-2P V-ASA-2S V-ASA-3P V-ASA-3S V-ASM-1P V-ASM-1S V-ASM-2P V-ASM-2S V-ASM-3P
        V-ASM-3S V-ASP-1P V-ASP-1S V-ASP-2P V-ASP-2S V-ASP-3P V-ASP-3S V-FIA-1P V-FIA-1S
        V-FIA-2P V-FIA-2S V-FIA-3P V-FIA-3S V-FIM-1P V-FIM-1S V-FIM-2P V-FIM-2S V-FIM-3P
        V-FIM-3S V-FIM/P-2P V-FIP-1P V-FIP-1S V-FIP-2P V-FIP-2S V-FIP-3P V-FIP-3S V-FNA V-FNM
        V-FPA-ANP V-FPA-NMP V-FPA-NMS V-FPM-ANS V-FPP-GNP V-IIA-1P V-IIA-1S V-IIA-2P V-IIA-2S
        V-IIA-3P V-IIA-3S V-IIM-1P V-IIM-1S V-IIM-2S V-IIM-3P V-IIM-3S V-IIM/P-1P V-IIM/P-1S
        V-IIM/P-2P V-IIM/P-2S V-IIM/P-3P V-IIM/P-3S V-IIP-1P V-IIP-3P V-LIA-1S V-LIA-2P
        V-LIA-2S V-LIA-3P V-LIA-3S V-LIM-3P V-LIM-3S V-LIM/P-3S V-M-2P V-M-2S V-PI-3S V-PIA-1P
        V-PIA-1S V-PIA-2P V-PIA-2S V-PIA-3P V-PIA-3S V-PIM-1P V-PIM-1S V-PIM-2P V-PIM-3P
        V-PIM-3S V-PIM/P-1P V-PIM/P-1S V-PIM/P-2P V-PIM/P-2S V-PIM/P-3P V-PIM/P-3S V-PIP-1S
        V-PIP-3S V-PMA-2P V-PMA-2S V-PMA-3P V-PMA-3S V-PMM-2P V-PMM-2S V-PMM/P-2P V-PMM/P-2S
        V-PMM/P-3P V-PMM/P-3S V-PMP-2P V-PMP-3S V-PNA V-PNM V-PNM/P V-PNP V-POA-2P V-POA-3P
        V-POA-3S V-POM/P-1S V-POM/P-3P V-POM/P-3S V-PPA-AFP V-PPA-AFS V-PPA-AMP V-PPA-AMS
        V-PPA-ANP V-PPA-ANS V-PPA-DFP V-PPA-DFS V-PPA-DMP V-PPA-DMS V-PPA-DNP V-PPA-DNS
        V-PPA-GFP V-PPA-GFS V-PPA-GMP V-PPA-GMS V-PPA-GNP V-PPA-GNS V-PPA-NFP V-PPA-NFS
        V-PPA-NMP V-PPA-NMS V-PPA-NNP V-PPA-NNS V-PPA-VFS V-PPA-VMP V-PPA-VMS V-PPM-AFS
        V-PPM-AMP V-PPM-AMS V-PPM-ANS V-PPM-DMP V-PPM-DMS V-PPM-GFP V-PPM-GFS V-PPM-GMP
        V-PPM-GMS V-PPM-GNP V-PPM-GNS V-PPM-NFP V-PPM-NFS V-PPM-NMP V-PPM-NMS V-PPM-NNS
        V-PPM/P-AFP V-PPM/P-AFS V-PPM/P-AMP V-PPM/P-AMS V-PPM/P-ANP V-PPM/P-ANS V-PPM/P-DFP
        V-PPM/P-DFS V-PPM/P-DMP V-PPM/P-DMS V-PPM/P-DNP V-PPM/P-DNS V-PPM/P-GFP V-PPM/P-GFS
        V-PPM/P-GMP V-PPM/P-GMS V-PPM/P-GNP V-PPM/P-GNS V-PPM/P-NFP V-PPM/P-NFS V-PPM/P-NMP
        V-PPM/P-NMS V-PPM/P-NNP V-PPM/P-NNS V-PPM/P-VMP V-PPM/P-VMS V-PPP-DMP V-PPP-GMP
        V-PPP-GMS V-PPP-NMP V-PSA-1P V-PSA-1S V-PSA-2P V-PSA-2S V-PSA-3P V-PSA-3S V-PSM-1P
        V-PSM-1S V-PSM-2S V-PSM-3S V-PSM/P-1P V-PSM/P-1S V-PSM/P-2P V-PSM/P-2S V-PSM/P-3P
        V-PSM/P-3S V-RIA-1P V-RIA-1S V-RIA-2P V-RIA-2S V-RIA-3P V-RIA-3S V-RIM-2S V-RIM-3S
        V-RIM/P-1P V-RIM/P-1S V-RIM/P-2P V-RIM/P-2S V-RIM/P-3P V-RIM/P-3S V-RIP-1P V-RMA-2P
        V-RMM/P-2P V-RMM/P-2S V-RNA V-RNM/P V-RPA-AFS V-RPA-AMP V-RPA-AMS V-RPA-ANP V-RPA-ANS
        V-RPA-DMP V-RPA-DMS V-RPA-DNS V-RPA-GFS V-RPA-GMP V-RPA-GMS V-RPA-GNP V-RPA-NFP
        V-RPA-NFS V-RPA-NMP V-RPA-NMS V-RPA-NNP V-RPA-NNS V-RPM-AMS V-RPM-NMP V-RPM-NMS
        V-RPM/P-AFP V-RPM/P-AFS V-RPM/P-AMP V-RPM/P-AMS V-RPM/P-ANP V-RPM/P-ANS V-RPM/P-DFP
        V-RPM/P-DFS V-RPM/P-DMP V-RPM/P-DMS V-RPM/P-DNP V-RPM/P-DNS V-RPM/P-GFP V-RPM/P-GFS
        V-RPM/P-GMP V-RPM/P-GMS V-RPM/P-GNP V-RPM/P-GNS V-RPM/P-NFP V-RPM/P-NFS V-RPM/P-NMP
        V-RPM/P-NMS V-RPM/P-NNP V-RPM/P-NNS V-RPM/P-VFS V-RPM/P-VMP V-RPM/P-VMS V-RSA-1P
        V-RSA-1S V-RSA-2P V-RSA-2S
";

/// Every distinct verb tag of the New Testament tables, in sorted order.
const VERBS: &str = "
        V-AIA-1P V-AIA-1S V-AIA-2P V-AIA-2S V-AIA-3P V-AIA-3S V-AIM-1P V-AIM-1S V-AIM-2P
        V-AIM-2S V-AIM-3P V-AIM-3S V-AIP-1P V-AIP-1S V-AIP-2P V-AIP-2S V-AIP-3P V-AIP-3S
        V-AMA-2P V-AMA-2S V-AMA-3P V-AMA-3S V-AMM-2P V-AMM-2S V-AMM-3P V-AMM-3S V-AMP-2P
        V-AMP-2S V-AMP-3P V-AMP-3S V-ANA V-ANM V-ANM/P V-ANP V-AOA-3P V-AOA-3S V-AOM-1S
        V-AOM-3S V-AOP-3S V-APA-AFP V-APA-AFS V-APA-AMP V-APA-AMS V-APA-ANP V-APA-ANS V-APA-DFP
        V-APA-DFS V-APA-DMP V-APA-DMS V-APA-GFS V-APA-GMP V-APA-GMS V-APA-GNS V-APA-NFP
        V-APA-NFS V-APA-NMP V-APA-NMS V-APA-NNP V-APA-NNS V-APM-AFS V-APM-AMP V-APM-AMS
        V-APM-ANP V-APM-ANS V-APM-DMP V-APM-DNP V-APM-GFP V-APM-GFS V-APM-GMP V-APM-GMS
        V-APM-GNP V-APM-GNS V-APM-NFP V-APM-NFS V-APM-NMP V-APM-NMS V-APM-NNS V-APM/P-ANP
        V-APM/P-GFS V-APM/P-NMS V-APP-AFS V-APP-AMP V-APP-AMS V-APP-ANP V-APP-ANS V-APP-DFS
        V-APP-DMS V-APP-DNP V-APP-DNS V-APP-GFP V-APP-GFS V-APP-GMP V-APP-GMS V-APP-GNP
        V-APP-GNS V-APP-NFP V-APP-NFS V-APP-NMP V-APP-NMS V-APP-NNP V-APP-NNS V-ASA-1P V-ASA-1S
        V-ASA-2P V-ASA-2S V-ASA-3P V-ASA-3S V-ASM-1P V-ASM-1S V-ASM-2P V-ASM-2S V-ASM-3P
        V-ASM-3S V-ASP-1P V-ASP-1S V-ASP-2P V-ASP-2S V-ASP-3P V-ASP-3S V-FIA-1P V-FIA-1S
        V-FIA-2P V-FIA-2S V-FIA-3P V-FIA-3S V-FIM-1P V-FIM-1S V-FIM-2P V-FIM-2S V-FIM-3P
        V-FIM-3S V-FIM/P-2P V-FIP-1P V-FIP-1S V-FIP-2P V-FIP-2S V-FIP-3P V-FIP-3S V-FNA V-FNM
        V-FPA-ANP V-FPA-NMP V-FPA-NMS V-FPM-ANS V-FPP-GNP V-IIA-1P V-IIA-1S V-IIA-2P V-IIA-2S
        V-IIA-3P V-IIA-3S V-IIM-1P V-IIM-1S V-IIM-2S V-IIM-3P V-IIM-3S V-IIM/P-1P V-IIM/P-1S
        V-IIM/P-2P V-IIM/P-2S V-IIM/P-3P V-IIM/P-3S V-IIP-1P V-IIP-3P V-LIA-1S V-LIA-2P
        V-LIA-2S V-LIA-3P V-LIA-3S V-LIM-3P V-LIM-3S V-LIM/P-3S V-M-2P V-M-2S V-PI-3S V-PIA-1P
        V-PIA-1S V-PIA-2P V-PIA-2S V-PIA-3P V-PIA-3S V-PIM-1P V-PIM-1S V-PIM-2P V-PIM-3P
        V-PIM-3S V-PIM/P-1P V-PIM/P-1S V-PIM/P-2P V-PIM/P-2S V-PIM/P-3P V-PIM/P-3S V-PIP-1S
        V-PIP-3S V-PMA-2P V-PMA-2S V-PMA-3P V-PMA-3S V-PMM-2P V-PMM-2S V-PMM/P-2P V-PMM/P-2S
        V-PMM/P-3P V-PMM/P-3S V-PMP-2P V-PMP-3S V-PNA V-PNM V-PNM/P V-PNP V-POA-2P V-POA-3P
        V-POA-3S V-POM/P-1S V-POM/P-3P V-POM/P-3S V-PPA-AFP V-PPA-AFS V-PPA-AMP V-PPA-AMS
        V-PPA-ANP V-PPA-ANS V-PPA-DFP V-PPA-DFS V-PPA-DMP V-PPA-DMS V-PPA-DNP V-PPA-DNS
        V-PPA-GFP V-PPA-GFS V-PPA-GMP V-PPA-GMS V-PPA-GNP V-PPA-GNS V-PPA-NFP V-PPA-NFS
        V-PPA-NMP V-PPA-NMS V-PPA-NNP V-PPA-NNS V-PPA-VFS V-PPA-VMP V-PPA-VMS V-PPM-AFS
        V-PPM-AMP V-PPM-AMS V-PPM-ANS V-PPM-DMP V-PPM-DMS V-PPM-GFP V-PPM-GFS V-PPM-GMP
        V-PPM-GMS V-PPM-GNP V-PPM-GNS V-PPM-NFP V-PPM-NFS V-PPM-NMP V-PPM-NMS V-PPM-NNS
        V-PPM/P-AFP V-PPM/P-AFS V-PPM/P-AMP V-PPM/P-AMS V-PPM/P-ANP V-PPM/P-ANS V-PPM/P-DFP
        V-PPM/P-DFS V-PPM/P-DMP V-PPM/P-DMS V-PPM/P-DNP V-PPM/P-DNS V-PPM/P-GFP V-PPM/P-GFS
        V-PPM/P-GMP V-PPM/P-GMS V-PPM/P-GNP V-PPM/P-GNS V-PPM/P-NFP V-PPM/P-NFS V-PPM/P-NMP
        V-PPM/P-NMS V-PPM/P-NNP V-PPM/P-NNS V-PPM/P-VMP V-PPM/P-VMS V-PPP-DMP V-PPP-GMP
        V-PPP-GMS V-PPP-NMP V-PSA-1P V-PSA-1S V-PSA-2P V-PSA-2S V-PSA-3P V-PSA-3S V-PSM-1P
        V-PSM-1S V-PSM-2S V-PSM-3S V-PSM/P-1P V-PSM/P-1S V-PSM/P-2P V-PSM/P-2S V-PSM/P-3P
        V-PSM/P-3S V-RIA-1P V-RIA-1S V-RIA-2P V-RIA-2S V-RIA-3P V-RIA-3S V-RIM-2S V-RIM-3S
        V-RIM/P-1P V-RIM/P-1S V-RIM/P-2P V-RIM/P-2S V-RIM/P-3P V-RIM/P-3S V-RIP-1P V-RMA-2P
        V-RMM/P-2P V-RMM/P-2S V-RNA V-RNM/P V-RPA-AFS V-RPA-AMP V-RPA-AMS V-RPA-ANP V-RPA-ANS
        V-RPA-DMP V-RPA-DMS V-RPA-DNS V-RPA-GFS V-RPA-GMP V-RPA-GMS V-RPA-GNP V-RPA-NFP
        V-RPA-NFS V-RPA-NMP V-RPA-NMS V-RPA-NNP V-RPA-NNS V-RPM-AMS V-RPM-NMP V-RPM-NMS
        V-RPM/P-AFP V-RPM/P-AFS V-RPM/P-AMP V-RPM/P-AMS V-RPM/P-ANP V-RPM/P-ANS V-RPM/P-DFP
        V-RPM/P-DFS V-RPM/P-DMP V-RPM/P-DMS V-RPM/P-DNP V-RPM/P-DNS V-RPM/P-GFP V-RPM/P-GFS
        V-RPM/P-GMP V-RPM/P-GMS V-RPM/P-GNP V-RPM/P-GNS V-RPM/P-NFP V-RPM/P-NFS V-RPM/P-NMP
        V-RPM/P-NMS V-RPM/P-NNP V-RPM/P-NNS V-RPM/P-VFS V-RPM/P-VMP V-RPM/P-VMS V-RSA-1P
        V-RSA-1S V-RSA-2P V-RSA-2S
";

#[test]
fn all_codes() {
    assert_all_decode(CODES);
}

#[test]
fn all_verbs() {
    assert_all_decode(VERBS);
}

use thermal_print::printers::{
    listed_printers, listing_command, name_bounds, next_listing, printers_in,
    printers_in_json_or_lines, ListFormat, Listing, Printer,
};
use thermal_print::spooler::Platform;

fn names(printers: &[Printer]) -> Vec<String> {
    printers.iter().map(|printer| printer.name.clone()).collect()
}

/// The second word of each line that begins with `printer `.
fn reference_printers(output: &str) -> Vec<String> {
    let mut found = Vec::new();
    for line in output.lines() {
        if line.starts_with("printer ") {
            let parts: Vec<&str> = line.split_whitespace().collect();
            if parts.len() > 1 {
                found.push(parts[1].to_string());
            }
        }
    }
    found
}

/// The first word of each line.
fn reference_accepting(output: &str) -> Vec<String> {
    let mut found = Vec::new();
    for line in output.lines() {
        let parts: Vec<&str> = line.split_whitespace().collect();
        if !parts.is_empty() {
            found.push(parts[0].to_string());
        }
    }
    found
}

/// What stands between the first two colons of each line that begins with
/// `Name:` after its indentation.
fn reference_profile(output: &str) -> Vec<String> {
    let mut found = Vec::new();
    for line in output.lines() {
        if line.trim().starts_with("Name:") {
            let parts: Vec<&str> = line.split(':').collect();
            if parts.len() > 1 {
                let name = parts[1].trim().to_string();
                if !name.is_empty() {
                    found.push(name);
                }
            }
        }
    }
    found
}

/// Each line that is not empty and does not begin with a bracket.
fn reference_plain(output: &str) -> Vec<String> {
    let mut found = Vec::new();
    for line in output.lines() {
        let trimmed = line.trim();
        if !trimmed.is_empty() && !trimmed.starts_with('{') && !trimmed.starts_with('[') {
            found.push(trimmed.to_string());
        }
    }
    found
}

fn reference_json(output: &str) -> Vec<String> {
    let mut found = Vec::new();
    if let Ok(json) = serde_json::from_str::<serde_json::Value>(output) {
        if let Some(array) = json.as_array() {
            for item in array {
                if let Some(name) = item.get("Name").and_then(|n| n.as_str()) {
                    found.push(name.to_string());
                }
            }
        } else if let Some(name) = json.get("Name").and_then(|n| n.as_str()) {
            found.push(name.to_string());
        }
        found
    } else {
        reference_plain(output)
    }
}

const SAMPLES: [&str; 16] = [
    "",
    "\n",
    "printer EPSON_TM_T20 is idle.  enabled since Mon 01 Jan 2024\n",
    "printer A is idle\nprinter B disabled\n\tReason unknown\nprinter   C\u{a0}now\n",
    "printer \nprinter\nprinterX y z\n printer indented name\nprinter  last",
    "EPSON_TM_T20 accepting requests since Mon 01 Jan 2024\r\nHP accepting\r\n",
    "   \n  Zebra   rejecting\n\n\nlast",
    "    Printers:\n\n      EPSON TM-T20:\n\n          Name: EPSON TM-T20\n          Status: Idle\n",
    "Name: a: b\nName:\nName:   \n  Name:x\nname: lower\nNames: plural\n  Name: tail  \r\n",
    "Name: :x\nStatus: Name: y\nName:z:",
    "HP LaserJet\n  Zebra ZD\n{\"Name\":\"x\"}\n[1]\n\n",
    "[{\"Name\":\"EPSON\",\"PrinterStatus\":0},{\"Name\":\"Zebra \\\"Z\\\"\",\"PrinterStatus\":3}]",
    "{\"Name\":\"Solo\",\"PrinterStatus\":0}",
    "[{\"Name\":1},{\"name\":\"lower\"},\"text\",null,{\"Name\":\"ok\"},[],{\"Name\":null}]",
    "\"Name\"",
    "[{\"Name\":\"broken\"",
];

#[test]
fn lpstat_p_lists_second_words() {
    let output = "printer EPSON_TM_T20 is idle.  enabled since Mon 01 Jan 2024\nprinter HP disabled since\n\tPaused\n";
    let printers = printers_in(ListFormat::Printers, output);
    assert_eq!(names(&printers), vec!["EPSON_TM_T20", "HP"]);
    assert!(printers.iter().all(|printer| printer.status == "available"));
}

#[test]
fn lpstat_a_lists_first_words() {
    let output = "EPSON_TM_T20 accepting requests since Mon 01 Jan 2024\nHP accepting requests\n";
    assert_eq!(names(&printers_in(ListFormat::Accepting, output)), vec!["EPSON_TM_T20", "HP"]);
}

#[test]
fn system_profiler_lists_names() {
    let output = "Printers:\n\n    EPSON TM-T20:\n\n      Name: EPSON TM-T20\n      Status: Idle\n      Name: HP: second\n";
    assert_eq!(names(&printers_in(ListFormat::Profile, output)), vec!["EPSON TM-T20", "HP"]);
}

#[test]
fn plain_lines_list_names() {
    let output = "HP LaserJet\r\n\r\n  Zebra \r\n{\"a\":1}\n[x]\n";
    assert_eq!(names(&printers_in(ListFormat::Plain, output)), vec!["HP LaserJet", "Zebra"]);
}

#[test]
fn json_lists_names() {
    let output = "[{\"Name\":\"EPSON\",\"PrinterStatus\":0},{\"Name\":\"Zebra\",\"PrinterStatus\":3}]";
    let printers = printers_in_json_or_lines(output);
    assert_eq!(names(&printers), vec!["EPSON", "Zebra"]);
    assert!(printers.iter().all(|printer| printer.status == "available"));
    assert_eq!(names(&printers_in_json_or_lines("{\"Name\":\"Solo\"}")), vec!["Solo"]);
    assert_eq!(names(&printers_in_json_or_lines("{\"Name\":5}")), Vec::<String>::new());
    assert_eq!(names(&printers_in_json_or_lines("17")), Vec::<String>::new());
    assert_eq!(names(&printers_in_json_or_lines("HP one\nHP two")), vec!["HP one", "HP two"]);
}

#[test]
fn lists_agree_with_the_text_functions_of_std() {
    for sample in SAMPLES {
        assert_eq!(
            names(&printers_in(ListFormat::Printers, sample)),
            reference_printers(sample),
            "{:?}",
            sample
        );
        assert_eq!(
            names(&printers_in(ListFormat::Accepting, sample)),
            reference_accepting(sample),
            "{:?}",
            sample
        );
        assert_eq!(
            names(&printers_in(ListFormat::Profile, sample)),
            reference_profile(sample),
            "{:?}",
            sample
        );
        assert_eq!(
            names(&printers_in(ListFormat::Plain, sample)),
            reference_plain(sample),
            "{:?}",
            sample
        );
        assert_eq!(
            names(&printers_in_json_or_lines(sample)),
            reference_json(sample),
            "{:?}",
            sample
        );
    }
}

#[test]
fn name_bounds_lie_in_the_line() {
    let line: Vec<char> = "printer  EPSON  is idle".chars().collect();
    assert_eq!(name_bounds(ListFormat::Printers, &line), Some((9, 14)));
    assert_eq!(name_bounds(ListFormat::Accepting, &line), Some((0, 7)));
    assert_eq!(name_bounds(ListFormat::Profile, &line), None);
    assert_eq!(name_bounds(ListFormat::Plain, &line), Some((0, 23)));
    let line: Vec<char> = "   Name:  X Y : z ".chars().collect();
    assert_eq!(name_bounds(ListFormat::Profile, &line), Some((10, 13)));
    assert_eq!(name_bounds(ListFormat::Printers, &line), None);
    let line: Vec<char> = "  ".chars().collect();
    assert_eq!(name_bounds(ListFormat::Accepting, &line), None);
    assert_eq!(name_bounds(ListFormat::Plain, &line), None);
}

#[test]
fn listings_by_platform() {
    assert_eq!(next_listing(Platform::MacOs, 0, 0), Some(Listing::LpstatAccepting));
    assert_eq!(next_listing(Platform::MacOs, 1, 0), Some(Listing::LpstatPrinters));
    assert_eq!(next_listing(Platform::MacOs, 2, 0), Some(Listing::SystemProfiler));
    assert_eq!(next_listing(Platform::MacOs, 3, 0), None);
    assert_eq!(next_listing(Platform::MacOs, 1, 2), None);
    assert_eq!(next_listing(Platform::Linux, 0, 0), Some(Listing::LpstatPrinters));
    assert_eq!(next_listing(Platform::Linux, 1, 0), None);
    assert_eq!(next_listing(Platform::Linux, 0, 1), None);
    assert_eq!(next_listing(Platform::Windows, 0, 0), Some(Listing::GetPrinter));
    assert_eq!(next_listing(Platform::Windows, 1, 0), None);
    assert_eq!(next_listing(Platform::Windows, usize::MAX, 0), None);
}

#[test]
fn listing_commands() {
    let command = listing_command(Listing::LpstatAccepting);
    assert_eq!(command.program, "lpstat");
    assert_eq!(command.arguments, vec!["-a"]);
    let command = listing_command(Listing::LpstatPrinters);
    assert_eq!(command.program, "lpstat");
    assert_eq!(command.arguments, vec!["-p"]);
    let command = listing_command(Listing::SystemProfiler);
    assert_eq!(command.program, "system_profiler");
    assert_eq!(command.arguments, vec!["SPPrintersDataType"]);
    let command = listing_command(Listing::GetPrinter);
    assert_eq!(command.program, "powershell");
    assert_eq!(
        command.arguments,
        vec![
            "-Command",
            "Get-Printer | Select-Object Name, PrinterStatus | ConvertTo-Json -Compress"
        ]
    );
}

#[test]
fn listed_printers_follow_the_listing() {
    let output = "printer A is idle\nB accepting\n  Name: C\n";
    assert_eq!(names(&listed_printers(Listing::LpstatPrinters, output)), vec!["A"]);
    assert_eq!(names(&listed_printers(Listing::LpstatAccepting, output)), vec!["printer", "B", "Name:"]);
    assert_eq!(names(&listed_printers(Listing::SystemProfiler, output)), vec!["C"]);
    assert_eq!(
        names(&listed_printers(Listing::GetPrinter, output)),
        vec!["printer A is idle", "B accepting", "Name: C"]
    );
}

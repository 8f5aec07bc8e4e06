use run_in_roblox::place_runner::{LaunchCommand, PlaceRunner};
use run_in_roblox::text::{chars_of, push_decimal, str_contains};

fn runner(port: u16, debug: bool) -> PlaceRunner {
    PlaceRunner {
        port,
        place_path: "C:\\places\\test place.rbxl".to_string(),
        server_id: "abc123".to_string(),
        lua_script: "return 1".to_string(),
        debug,
    }
}

#[test]
fn the_plugin_file_is_named_after_the_port() {
    assert_eq!(runner(9001, false).plugin_file_name(), "run_in_roblox-9001.rbxmx");
    assert_eq!(runner(0, false).plugin_file_name(), "run_in_roblox-0.rbxmx");
    assert_eq!(runner(7, false).plugin_file_name(), "run_in_roblox-7.rbxmx");
    assert_eq!(runner(10, false).plugin_file_name(), "run_in_roblox-10.rbxmx");
    assert_eq!(runner(50505, false).plugin_file_name(), "run_in_roblox-50505.rbxmx");
    assert_eq!(runner(65535, false).plugin_file_name(), "run_in_roblox-65535.rbxmx");
}

#[test]
fn different_ports_give_different_plugin_files() {
    assert_ne!(runner(9001, false).plugin_file_name(), runner(9002, false).plugin_file_name());
    assert_ne!(runner(1, false).plugin_file_name(), runner(10, false).plugin_file_name());
}

#[test]
fn a_native_studio_is_executed_directly() {
    let place = runner(1, false);
    assert_eq!(
        place.get_studio_execution_cmd("C:\\Roblox\\RobloxStudioBeta.exe"),
        "C:\\Roblox\\RobloxStudioBeta.exe"
    );
    assert_eq!(place.get_studio_execution_cmd(""), "");
    assert_eq!(place.get_studio_execution_cmd("/opt/vinega/r"), "/opt/vinega/r");
    assert_eq!(place.get_studio_execution_cmd("/opt/Vinegar/studio"), "/opt/Vinegar/studio");
}

#[test]
fn a_studio_behind_the_launcher_is_executed_through_it() {
    let place = runner(1, false);
    assert_eq!(place.get_studio_execution_cmd("/usr/bin/vinegar"), "vinegar");
    assert_eq!(place.get_studio_execution_cmd("vinegar"), "vinegar");
    assert_eq!(
        place.get_studio_execution_cmd("/home/me/.var/app/org.vinegarhq.Vinegar/studio.exe"),
        "vinegar"
    );
}

#[test]
fn the_place_is_the_only_argument_of_a_native_studio() {
    let command = runner(1, false).launch_command("C:\\Roblox\\RobloxStudioBeta.exe".to_string());
    assert_eq!(
        command,
        LaunchCommand {
            program: "C:\\Roblox\\RobloxStudioBeta.exe".to_string(),
            args: vec!["C:\\places\\test place.rbxl".to_string()],
            quiet: true,
        }
    );
}

#[test]
fn the_launcher_takes_its_subcommand_before_the_place() {
    let command = runner(1, false).launch_command("vinegar".to_string());
    assert_eq!(command.program, "vinegar");
    assert_eq!(command.args, vec!["studio", "run", "C:\\places\\test place.rbxl"]);
}

#[test]
fn debug_keeps_the_output_of_studio() {
    assert!(runner(1, false).launch_command("studio".to_string()).quiet);
    assert!(!runner(1, true).launch_command("studio".to_string()).quiet);
}

#[test]
fn substring_search_finds_what_is_there() {
    assert!(str_contains("vinegar", "vinegar"));
    assert!(str_contains("xvinegar", "vinegar"));
    assert!(str_contains("vinegarx", "vinegar"));
    assert!(str_contains("vivinegar", "vinegar"));
    assert!(str_contains("abc", ""));
    assert!(str_contains("", ""));
    assert!(str_contains("aab", "ab"));
    assert!(str_contains("h\u{e9}llo w\u{f6}rld", "w\u{f6}r"));
}

#[test]
fn substring_search_finds_nothing_that_is_not_there() {
    assert!(!str_contains("", "vinegar"));
    assert!(!str_contains("vinega", "vinegar"));
    assert!(!str_contains("inegar", "vinegar"));
    assert!(!str_contains("vine gar", "vinegar"));
    assert!(!str_contains("VINEGAR", "vinegar"));
    assert!(!str_contains("abc", "abcd"));
    assert!(!str_contains("h\u{e9}llo", "e"));
}

#[test]
fn the_characters_of_a_text_come_in_order() {
    assert_eq!(chars_of("a\u{e9}z"), vec!['a', '\u{e9}', 'z']);
    assert_eq!(chars_of(""), Vec::<char>::new());
}

#[test]
fn numerals_are_decimal_without_leading_zeros() {
    let mut text = String::from("n=");
    push_decimal(&mut text, 0);
    assert_eq!(text, "n=0");
    push_decimal(&mut text, 9);
    push_decimal(&mut text, 10);
    push_decimal(&mut text, 100);
    push_decimal(&mut text, 65535);
    push_decimal(&mut text, 12345);
    push_decimal(&mut text, 6789);
    assert_eq!(text, "n=091010065535123456789");
}

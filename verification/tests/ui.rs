use cloud_cli::config::Config;
use cloud_cli::error::CliError;
use cloud_cli::tools::fe::routine_load::models::RoutineLoadJob;
use cloud_cli::tools::fe::routine_load::RoutineLoadToolIndex;
use cloud_cli::tools::{ExecutionResult, Tool, ToolKind, ToolRegistry};
use cloud_cli::ui::dialogs::{
    recovery_options, show_no_jobs_recovery_menu, show_unknown_db_recovery_menu, NoJobsNextAction,
};
use cloud_cli::ui::error_handlers::{
    classify_tool_error, dialog_options, fix_jdk_path, fix_output_directory,
    handle_tool_execution_error, is_be_connectivity_error, is_fe_profiler_script_missing,
    is_jdk_missing, is_output_dir_invalid, ErrorAction, ErrorDialog,
};
use cloud_cli::ui::menu::{
    ask_continue, fe_tools_menu, main_menu, post_execution_menu, post_execution_title,
    routine_load_menu, show_fe_tools_menu, show_interactive_menu, show_main_menu,
    show_post_execution_menu, show_routine_load_menu, show_tool_selection_menu, tool_menu,
    FeToolAction, MainMenuAction, MenuKey, MenuStep, PostExecutionAction, RoutineLoadAction,
    ToolSelection,
};
use cloud_cli::ui::selector::{
    page_title, InteractiveSelector, ItemFormatter, SelectorKey, SelectorStep,
};
use cloud_cli::ui::service_handlers::{
    be_menu_tools, execute_routine_load_tool, handle_be_service_loop, handle_fe_service_loop,
    handle_routine_load_loop, handle_service_loop, index_by_name, run_tool_with_post,
    tool_not_found_message, FeStep, LoopStep, ServiceKind,
};
use cloud_cli::ui::tool_executor::{
    execute_tool_enhanced, executing_message, maybe_print_output_path, no_process_message,
    resolve_pid_if_required, ToolOutcome,
};
use cloud_cli::ui::utils::{FormatHelper, InputHelper};
use cloud_cli::ui::{
    format_menu_item, print_error, print_info, print_process_info, print_step, print_success,
    print_warning, truncate_command,
};

#[test]
fn messages_carry_their_marks() {
    assert_eq!(print_success("done"), "[+]  done");
    assert_eq!(print_error("failed"), "[!]  failed");
    assert_eq!(print_warning("careful"), "[*]  careful");
    assert_eq!(print_info(""), "[i]  ");
    assert_eq!(print_step(2, "Select FE tool"), "Step 2 Select FE tool");
    assert_eq!(format_menu_item("[1]", "FE", "Frontend operations"), "[1] FE - Frontend operations");
    assert_eq!(truncate_command("short", 60), "short");
    let long = "x".repeat(61);
    assert_eq!(truncate_command(&long, 60), format!("{}...", "x".repeat(60)));
    assert_eq!(truncate_command(&"x".repeat(60), 60), "x".repeat(60));
    assert_eq!(
        print_process_info(42, "java DorisFE"),
        vec!["[>]  Process Details:", "  > PID: 42", "  > Command: java DorisFE"]
    );
}

#[test]
fn numbers_and_texts_are_formatted() {
    assert_eq!(FormatHelper::fmt_int(0), "0");
    assert_eq!(FormatHelper::fmt_int(999), "999");
    assert_eq!(FormatHelper::fmt_int(1000), "1,000");
    assert_eq!(FormatHelper::fmt_int(u64::MAX), "18,446,744,073,709,551,615");
    assert_eq!(FormatHelper::fmt_int_u128(1_000_000_000_000_000_000_000), "1,000,000,000,000,000,000,000");
    assert_eq!(FormatHelper::truncate_string("load_orders", 32), "load_orders");
    assert_eq!(
        FormatHelper::truncate_string("a_very_long_job_name_that_goes_on_and_on", 32),
        "a_very_long_job_name_that_goe..."
    );
    assert_eq!(FormatHelper::truncate_string("abcd", 3), "...");
}

#[test]
fn answers_are_checked() {
    assert_eq!(InputHelper::prompt_non_empty("  sales ").unwrap(), "sales");
    assert_eq!(
        InputHelper::prompt_non_empty("   ").unwrap_err().message(),
        "Invalid input: Input cannot be empty"
    );
    assert_eq!(InputHelper::prompt_number_with_default(" 45 ", 30, 1).unwrap(), 45);
    assert_eq!(InputHelper::prompt_number_with_default("soon", 30, 1).unwrap(), 30);
    assert_eq!(InputHelper::prompt_number_with_default("", 30, 1).unwrap(), 30);
    assert_eq!(InputHelper::prompt_number_with_default("0", 30, 1).unwrap(), 1);
    assert_eq!(InputHelper::prompt_number_with_default("-5", 30, 1).unwrap(), 1);
    assert_eq!(InputHelper::prompt_number_with_default("x", 0, 1).unwrap(), 1);
}

#[test]
fn menus_answer_to_keys() {
    assert_eq!(show_interactive_menu(0, 3, MenuKey::Enter), MenuStep::Chosen(0));
    assert_eq!(show_interactive_menu(0, 3, MenuKey::ArrowUp), MenuStep::Marked(2));
    assert_eq!(show_interactive_menu(1, 3, MenuKey::ArrowUp), MenuStep::Marked(0));
    assert_eq!(show_interactive_menu(2, 3, MenuKey::ArrowDown), MenuStep::Marked(0));
    assert_eq!(show_interactive_menu(1, 3, MenuKey::ArrowDown), MenuStep::Marked(2));
    assert_eq!(show_interactive_menu(1, 3, MenuKey::Digit(3)), MenuStep::Marked(2));
    assert_eq!(show_interactive_menu(1, 3, MenuKey::Digit(4)), MenuStep::Marked(1));
    assert_eq!(show_interactive_menu(1, 3, MenuKey::Digit(0)), MenuStep::Marked(0));
    assert_eq!(show_interactive_menu(1, 3, MenuKey::Other), MenuStep::Marked(1));
    assert_eq!(show_main_menu(0), MainMenuAction::Fe);
    assert_eq!(show_main_menu(1), MainMenuAction::Be);
    assert_eq!(show_main_menu(2), MainMenuAction::Exit);
    assert_eq!(show_fe_tools_menu(0), FeToolAction::FeList);
    assert_eq!(show_fe_tools_menu(4), FeToolAction::FeProfiler);
    assert_eq!(show_fe_tools_menu(5), FeToolAction::TableInfo);
    assert_eq!(show_fe_tools_menu(7), FeToolAction::Back);
    assert_eq!(show_routine_load_menu(1), RoutineLoadAction::ErrorCheck);
    assert_eq!(show_routine_load_menu(4), RoutineLoadAction::Back);
    assert_eq!(show_post_execution_menu(1), PostExecutionAction::BackToMain);
    assert_eq!(post_execution_title("jstack"), "jstack completed - What's next?");
    assert!(ask_continue(0));
    assert!(!ask_continue(1));
    assert_eq!(recovery_options(), vec!["Choose another database", "Back to Routine Load menu"]);
    assert_eq!(show_no_jobs_recovery_menu(0), NoJobsNextAction::ChooseAnotherDatabase);
    assert_eq!(show_no_jobs_recovery_menu(1), NoJobsNextAction::BackToMenu);
    assert_eq!(show_unknown_db_recovery_menu(7), NoJobsNextAction::BackToMenu);
}

fn list(n: usize, page_size: usize) -> InteractiveSelector<String> {
    InteractiveSelector::new((0..n).map(|i| format!("item{i}")).collect(), "Pick".to_string())
        .with_page_size(page_size)
}

#[test]
fn selection_lists_page() {
    let s = list(25, 10);
    assert_eq!(s.begin().unwrap(), 0);
    assert_eq!(s.title(), "Pick");
    assert_eq!(s.items().len(), 25);
    assert_eq!(s.select(3, SelectorKey::Enter), SelectorStep::Chosen(3));
    assert_eq!(s.select(0, SelectorKey::ArrowUp), SelectorStep::Marked(24));
    assert_eq!(s.select(24, SelectorKey::ArrowDown), SelectorStep::Marked(0));
    assert_eq!(s.select(3, SelectorKey::ArrowLeft), SelectorStep::Marked(3));
    assert_eq!(s.select(13, SelectorKey::ArrowLeft), SelectorStep::Marked(0));
    assert_eq!(s.select(3, SelectorKey::ArrowRight), SelectorStep::Marked(10));
    assert_eq!(s.select(13, SelectorKey::ArrowRight), SelectorStep::Marked(20));
    assert_eq!(s.select(23, SelectorKey::ArrowRight), SelectorStep::Marked(23));
    assert_eq!(s.select(13, SelectorKey::Digit(4)), SelectorStep::Marked(13));
    assert_eq!(s.select(11, SelectorKey::Digit(4)), SelectorStep::Marked(13));
    assert_eq!(s.select(21, SelectorKey::Digit(9)), SelectorStep::Marked(21));
    assert_eq!(s.select(21, SelectorKey::Digit(5)), SelectorStep::Marked(24));
    assert_eq!(s.select(21, SelectorKey::Digit(0)), SelectorStep::Marked(20));
    assert_eq!(s.select(21, SelectorKey::Other), SelectorStep::Marked(21));
    let frame = s.render_selection_list(23);
    assert_eq!((frame.current_page, frame.total_pages, frame.start, frame.end), (2, 3, 20, 25));
    assert_eq!(page_title(frame, 25), "Page 3/3  (25 items)");
    let frame = s.render_selection_list(9);
    assert_eq!((frame.current_page, frame.start, frame.end), (0, 0, 10));
    let small = list(3, 0);
    assert_eq!(small.select(0, SelectorKey::ArrowRight), SelectorStep::Marked(1));
    assert_eq!(small.render_selection_list(2).total_pages, 3);
    let wide = list(3, 30);
    assert_eq!(wide.select(1, SelectorKey::ArrowRight), SelectorStep::Marked(1));
    assert_eq!(wide.render_selection_list(1).end, 3);
    assert_eq!(
        list(0, 30).begin().unwrap_err().message(),
        "Invalid input: No items to select from"
    );
    assert_eq!(s.format_item(&"plain".to_string()), "plain");
    let job = RoutineLoadJob {
        id: "12345".to_string(),
        name: "a_very_long_job_name_that_goes_on_and_on".to_string(),
        state: "RUNNING".to_string(),
        db_name: String::new(),
        table_name: String::new(),
        create_time: String::new(),
        pause_time: None,
        end_time: None,
        current_task_num: None,
        data_source_type: None,
        statistic: None,
        progress: None,
        lag: None,
        error_log_urls: None,
        other_msg: None,
    };
    let jobs = InteractiveSelector::new(vec![job.clone()], "Select a Routine Load job:".to_string());
    assert_eq!(jobs.format_item(&job), "12345 - a_very_long_job_name_that_goe... (RUNNING)");
}

fn config() -> Config {
    Config {
        jdk_path: "/opt/jdk".to_string(),
        output_dir: "/tmp/out".to_string(),
        timeout_seconds: 60,
        no_progress_animation: false,
    }
}

#[test]
fn failures_lead_to_the_right_dialogue() {
    let no_job = CliError::InvalidInput("No Job ID in memory. Run 'Get Job ID' first.".to_string());
    let d = classify_tool_error(&no_job, "FE", "routine_load_traffic_monitor", true, true);
    assert_eq!(d, ErrorDialog::NoJobId);
    assert_eq!(
        dialog_options(d),
        vec!["Go to Get Job ID", "Return to Routine Load menu", "Cancel and return to menu"]
    );
    assert!(matches!(handle_tool_execution_error(d, 0), Err(CliError::GracefulExit)));
    assert!(matches!(handle_tool_execution_error(d, 1), Err(CliError::GracefulExit)));
    assert_eq!(handle_tool_execution_error(d, 2).unwrap(), ErrorAction::ReturnToMenu);
    assert_eq!(
        handle_tool_execution_error(d, 3).unwrap_err().message(),
        "Invalid input: Invalid selection"
    );
    assert_ne!(classify_tool_error(&no_job, "BE", "routine_load_x", true, true), ErrorDialog::NoJobId);

    let down = CliError::ToolExecutionFailed(
        "Could not connect to any BE http port (h:1). Check if BE is running.".to_string(),
    );
    assert!(is_be_connectivity_error(&down));
    let d = classify_tool_error(&down, "BE", "memz", true, true);
    assert_eq!(d, ErrorDialog::BeConnectivity);
    assert_eq!(dialog_options(d), vec!["Retry", "Return to menu"]);
    assert_eq!(handle_tool_execution_error(d, 0).unwrap(), ErrorAction::Retry);
    assert_eq!(handle_tool_execution_error(d, 1).unwrap(), ErrorAction::ReturnToMenu);

    let script = CliError::ConfigError("profile_fe.sh not found at /x".to_string());
    assert!(is_fe_profiler_script_missing("fe-profiler", &script));
    assert!(!is_fe_profiler_script_missing("jstack", &script));
    let d = classify_tool_error(&script, "FE", "fe-profiler", true, true);
    assert_eq!(d, ErrorDialog::ProfilerScriptMissing);
    assert_eq!(dialog_options(d), vec!["Return to menu"]);
    assert_eq!(handle_tool_execution_error(d, 0).unwrap(), ErrorAction::ReturnToMenu);

    let jdk = CliError::ConfigError("jmap not found: /opt/jdk/bin/jmap.".to_string());
    assert!(is_jdk_missing(&jdk, true));
    assert!(is_jdk_missing(&down, false));
    assert!(!is_jdk_missing(&down, true));
    assert!(is_output_dir_invalid(&CliError::IoError("Cannot create directory".to_string()), true));
    assert!(is_output_dir_invalid(&down, false));
    assert!(!is_output_dir_invalid(&down, true));
    let d = classify_tool_error(&jdk, "FE", "jmap-dump", true, false);
    assert_eq!(d, ErrorDialog::Configuration { fix_jdk: true, fix_output_dir: true });
    assert_eq!(
        dialog_options(d),
        vec!["Fix JDK path and retry", "Fix output directory and retry", "Cancel and return to menu"]
    );
    assert_eq!(handle_tool_execution_error(d, 0).unwrap(), ErrorAction::FixJdkPath);
    assert_eq!(handle_tool_execution_error(d, 1).unwrap(), ErrorAction::FixOutputDirectory);
    assert_eq!(handle_tool_execution_error(d, 2).unwrap(), ErrorAction::ReturnToMenu);
    let only_dir = ErrorDialog::Configuration { fix_jdk: false, fix_output_dir: true };
    assert_eq!(dialog_options(only_dir), vec!["Fix output directory and retry", "Cancel and return to menu"]);
    assert_eq!(handle_tool_execution_error(only_dir, 0).unwrap(), ErrorAction::FixOutputDirectory);
    assert_eq!(handle_tool_execution_error(only_dir, 1).unwrap(), ErrorAction::ReturnToMenu);
    let neither = ErrorDialog::Configuration { fix_jdk: false, fix_output_dir: false };
    assert_eq!(dialog_options(neither), vec!["Cancel and return to menu"]);
    assert_eq!(handle_tool_execution_error(neither, 0).unwrap(), ErrorAction::ReturnToMenu);

    assert_eq!(fix_jdk_path(&config(), "/jdk21".to_string(), true, true).unwrap().jdk_path, "/jdk21");
    assert_eq!(
        fix_jdk_path(&config(), "/nowhere".to_string(), false, false).unwrap_err(),
        "Path does not exist: /nowhere"
    );
    assert_eq!(
        fix_jdk_path(&config(), "/jre".to_string(), true, false).unwrap_err(),
        "Required JDK tools (jmap/jstack) not found in the specified path"
    );
    assert_eq!(
        fix_output_directory(&config(), "/new".to_string(), Ok(())).unwrap().output_dir,
        "/new"
    );
    assert_eq!(
        fix_output_directory(&config(), "/new".to_string(), Err("denied".to_string())).unwrap_err(),
        "Cannot create directory: denied"
    );
}

#[test]
fn tools_run_and_report() {
    assert_eq!(resolve_pid_if_required(false, None, &Err(CliError::GracefulExit)), Some(0));
    assert_eq!(resolve_pid_if_required(true, Some(5), &Ok(6)), Some(5));
    assert_eq!(resolve_pid_if_required(true, None, &Ok(6)), Some(6));
    assert_eq!(resolve_pid_if_required(true, None, &Err(CliError::GracefulExit)), None);
    assert_eq!(no_process_message("jstack"), "No jstack processes found.");
    assert_eq!(executing_message("jstack"), "Executing jstack...");
    assert_eq!(maybe_print_output_path("/out/x.log"), Some("Output saved to: /out/x.log".to_string()));
    assert_eq!(maybe_print_output_path("console_output"), None);
    assert_eq!(maybe_print_output_path(""), None);
    let done = execute_tool_enhanced(Ok(ExecutionResult {
        output_path: "/out/x".to_string(),
        message: "ok".to_string(),
    }));
    match done {
        ToolOutcome::Succeeded { message, saved } => {
            assert_eq!(message, "ok");
            assert_eq!(saved, Some("Output saved to: /out/x".to_string()));
        }
        other => panic!("{other:?}"),
    }
    assert!(matches!(execute_tool_enhanced(Err(CliError::GracefulExit)), ToolOutcome::Left));
    assert!(matches!(
        execute_tool_enhanced(Err(CliError::IoError("x".to_string()))),
        ToolOutcome::Failed(CliError::IoError(_))
    ));
}

#[test]
fn service_loops_follow_the_menus() {
    let tools = vec![ToolKind::JmapDump, ToolKind::JmapHisto, ToolKind::Jstack];
    assert_eq!(index_by_name(&tools, "jstack"), Some(2));
    assert_eq!(index_by_name(&tools, "jmap-dump"), Some(0));
    assert_eq!(index_by_name(&tools, "pstack"), None);
    assert_eq!(tool_not_found_message("pstack", "FE"), "Tool 'pstack' not found for FE.");
    assert_eq!(run_tool_with_post(PostExecutionAction::Continue), LoopStep::Again);
    assert_eq!(run_tool_with_post(PostExecutionAction::BackToMain), LoopStep::Leave);
    assert_eq!(run_tool_with_post(PostExecutionAction::Exit), LoopStep::Quit);
    assert_eq!(handle_service_loop("FE"), ServiceKind::Fe);
    assert_eq!(handle_service_loop("BE"), ServiceKind::Be);
    assert_eq!(handle_service_loop("fe"), ServiceKind::Be);
    assert_eq!(handle_fe_service_loop(FeToolAction::Jstack), FeStep::Run(ToolKind::Jstack));
    assert_eq!(handle_fe_service_loop(FeToolAction::RoutineLoad), FeStep::RoutineLoadMenu);
    assert_eq!(handle_fe_service_loop(FeToolAction::TableInfo), FeStep::TableInfo);
    assert_eq!(handle_fe_service_loop(FeToolAction::FeList), FeStep::Run(ToolKind::FeList));
    assert_eq!(handle_fe_service_loop(FeToolAction::Back), FeStep::Leave);
    assert_eq!(
        handle_routine_load_loop(RoutineLoadAction::Traffic),
        Some(ToolKind::RoutineLoadTrafficMonitor)
    );
    assert_eq!(handle_routine_load_loop(RoutineLoadAction::Back), None);
    assert_eq!(handle_be_service_loop(&Err(CliError::GracefulExit)), LoopStep::Leave);
    assert_eq!(handle_be_service_loop(&Ok(())), LoopStep::Again);
    assert_eq!(handle_be_service_loop(&Err(CliError::IoError("x".to_string()))), LoopStep::Again);
    assert_eq!(
        execute_routine_load_tool(&tools, RoutineLoadToolIndex::JobLister).unwrap_err().message(),
        "Tool execution failed: Tool not found at index 5"
    );
    let eight = vec![ToolKind::Jstack; 8];
    assert_eq!(
        execute_routine_load_tool(&eight, RoutineLoadToolIndex::PerformanceAnalyzer).unwrap(),
        ToolKind::Jstack
    );
}

#[test]
fn menus_show_their_entries_and_answer_with_their_actions() {
    let main = main_menu();
    assert_eq!(main.step, 1);
    assert_eq!(main.title, "Select service type");
    assert_eq!(
        main.items(),
        vec![
            "[1] FE - Frontend operations",
            "[2] BE - Backend operations",
            "[3] Exit - Exit the application"
        ]
    );
    assert_eq!(main.show(1), MainMenuAction::Be);
    let fe = fe_tools_menu();
    assert_eq!(fe.options.len(), 8);
    assert_eq!(fe.items()[4], "[5] fe-profiler - Generate flame graph for FE performance analysis using async-profiler");
    assert_eq!(fe.show(7), FeToolAction::Back);
    for i in 0..8 {
        assert_eq!(fe.show(i), show_fe_tools_menu(i));
    }
    let jobs = routine_load_menu();
    assert_eq!(jobs.title, "Routine Load Tools");
    assert_eq!(jobs.items()[4], "[5] ← Back to FE Tools - Return to FE tools menu");
    assert_eq!(jobs.show(2), RoutineLoadAction::Performance);
    let after = post_execution_menu("jstack");
    assert_eq!(after.step, 4);
    assert_eq!(after.title, "jstack completed - What's next?");
    assert_eq!(after.items()[1], "[2] ← Back to Main - Return to service selection");
    assert_eq!(after.show(2), PostExecutionAction::Exit);
}

#[test]
fn the_menu_of_tools_ends_with_the_way_back_and_the_way_out() {
    let tools = be_menu_tools(&ToolRegistry::new());
    assert_eq!(
        tools,
        vec![
            ToolKind::BeList,
            ToolKind::Pstack,
            ToolKind::BeVars,
            ToolKind::JmapDump,
            ToolKind::JmapHisto,
            ToolKind::PipelineTasks,
            ToolKind::Memz,
            ToolKind::MemzGlobal
        ]
    );
    let menu = tool_menu(2, "Select BE tool", &tools);
    let items = menu.items();
    assert_eq!(items.len(), 10);
    assert_eq!(items[1], format!("[2] pstack - {}", ToolKind::Pstack.description()));
    assert_eq!(items[8], "[9] ← Back - Return to main menu");
    assert_eq!(items[9], "[10] Exit - Exit the application");
    assert_eq!(menu.show(0), ToolSelection::Tool(0));
    assert_eq!(menu.show(8), ToolSelection::Back);
    assert_eq!(menu.show(9), ToolSelection::Exit);
    for i in 0..10 {
        assert_eq!(menu.show(i), show_tool_selection_menu(8, i));
    }
    assert_eq!(show_tool_selection_menu(0, 0), ToolSelection::Back);
    assert_eq!(show_tool_selection_menu(0, 5), ToolSelection::Exit);
}

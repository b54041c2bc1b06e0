use daw::commands::{Command, CommandError, CreatePattern, ToggleChannelMute, ToggleStep};
use daw::dispatch::{CommandBox, Dispatcher};
use daw::project::Project;

#[test]
fn test_create_pattern_command() {
    let mut project = Project::default();
    let cmd = CreatePattern {
        name: "Test".to_string(),
        color: "#ff0000".to_string(),
    };
    assert!(cmd.execute(&mut project).unwrap());
    assert_eq!(project.patterns.len(), 2); // 1 default + 1 new
}

#[test]
fn test_toggle_step_command() {
    let mut project = Project::default();
    let pattern_id = project.current_pattern_id;

    let cmd = ToggleStep {
        pattern_id,
        channel_id: 0,
        step: 0,
    };
    assert!(cmd.execute(&mut project).unwrap());

    let pattern = project.get_pattern(pattern_id).unwrap();
    assert!(pattern.is_step_active(0, 0));
}

#[test]
fn test_toggle_channel_mute() {
    let mut project = Project::default();
    let cmd = ToggleChannelMute { channel_id: 0 };
    assert!(!project.channels[0].muted);
    assert!(cmd.execute(&mut project).unwrap());
    assert!(project.channels[0].muted);
}

struct TestCommand;

impl Command for TestCommand {
    fn execute(&self, project: &mut Project) -> Result<bool, CommandError> {
        project.mark_dirty();
        Ok(true)
    }

    fn name(&self) -> &str {
        "TestCommand"
    }

    fn is_undoable(&self) -> bool {
        true
    }
}

#[test]
fn test_dispatcher() {
    let mut dispatcher = Dispatcher::new();
    let mut project = Project::default();

    let cmd = CommandBox { command: Box::new(TestCommand) };
    let result = dispatcher.execute(cmd, &mut project).unwrap();

    assert!(result.modified);
    assert!(dispatcher.can_undo());
}

use tinymist::export::{
    log_err, need_export, word_count_request, CompiledArtifact, CompiledDocument, DevEvent,
    DevExportEvent, DocumentKind, EditorRequest, ExportSignal, ExportTask,
};
use tinymist::task::{
    CompileSignal, ExportTarget, ExportTextTask, ExportUserConfig, PreviewTask, ProjectExportTask,
    ProjectTask, TaskWhen,
};

const TIMES: [TaskWhen; 5] = [
    TaskWhen::Never,
    TaskWhen::Script,
    TaskWhen::OnType,
    TaskWhen::OnSave,
    TaskWhen::OnDocumentHasTitle,
];

fn signals() -> Vec<CompileSignal> {
    let mut list = vec![];
    for bits in 0..8 {
        list.push(CompileSignal {
            by_entry_update: bits & 1 != 0,
            by_fs_events: bits & 2 != 0,
            by_mem_events: bits & 4 != 0,
        });
    }
    list
}

fn artifact(signal: CompileSignal, doc: Option<bool>) -> CompiledArtifact {
    CompiledArtifact {
        id: "main".to_owned(),
        signal,
        revision: 17,
        doc: doc.map(|has_title| CompiledDocument { kind: DocumentKind::Paged, has_title }),
    }
}

fn config(when: TaskWhen) -> ExportUserConfig {
    ExportUserConfig {
        task: ProjectTask::ExportText(ExportTextTask {
            export: ProjectExportTask {
                when,
                output: Some("$root/$name".to_owned()),
                transform: vec![],
            },
        }),
        ..ExportUserConfig::default()
    }
}

#[test]
fn test_default_never() {
    let conf = ExportUserConfig::default();
    assert!(!conf.count_words);
    assert_eq!(conf.task.when(), Some(&TaskWhen::Never));
}

#[test]
fn default_configuration() {
    let conf = ExportUserConfig::default();
    assert_eq!(conf.export_target, ExportTarget::Paged);
    assert!(!conf.development);
    match conf.task {
        ProjectTask::ExportPdf(task) => {
            assert_eq!(task.export.output, None);
            assert!(task.export.transform.is_empty());
            assert!(task.pdf_standards.is_empty());
            assert_eq!(task.creation_timestamp, None);
        }
        _ => panic!("not an export to PDF"),
    }
}

#[test]
fn the_default_sets_nothing_going() {
    let task = ExportTask::new(true, ExportUserConfig::default());
    for signal in signals() {
        let set = task.signal(&artifact(signal, Some(true)));
        assert_eq!(set.export, ExportSignal::Skip(None));
        assert_eq!(set.count_words, None);
        let set = task.signal(&artifact(signal, None));
        assert_eq!(set.export, ExportSignal::NoDocument);
    }
}

#[test]
fn exports_are_due_when_the_user_wants_them() {
    for signal in signals() {
        for has_title in [false, true] {
            for when in TIMES {
                let expected = match when {
                    TaskWhen::Never => false,
                    TaskWhen::Script => signal.by_entry_update,
                    TaskWhen::OnType => signal.by_mem_events,
                    TaskWhen::OnSave => signal.by_fs_events,
                    TaskWhen::OnDocumentHasTitle => signal.by_fs_events && has_title,
                };
                assert_eq!(need_export(when, signal, has_title), expected);
                let task = ExportTask::new(false, config(when));
                let set = task.signal_export(&artifact(signal, Some(has_title)));
                if expected {
                    assert_eq!(set, ExportSignal::Export { revision: 17, event: None });
                } else {
                    assert_eq!(set, ExportSignal::Skip(None));
                }
            }
        }
    }
}

#[test]
fn developers_get_one_report_for_each_document() {
    for signal in signals() {
        for when in TIMES {
            let conf = ExportUserConfig { development: true, ..config(when) };
            let task = ExportTask::new(false, conf);
            let due = need_export(when, signal, true);
            let event = Some(DevEvent::Export(DevExportEvent {
                id: "main".to_owned(),
                when,
                need_export: due,
                signal,
                path: Some("$root/$name".to_owned()),
            }));
            let set = task.signal_export(&artifact(signal, Some(true)));
            if due {
                assert_eq!(set, ExportSignal::Export { revision: 17, event });
            } else {
                assert_eq!(set, ExportSignal::Skip(event));
            }
            assert_eq!(
                task.signal_export(&artifact(signal, None)),
                ExportSignal::NoDocument
            );
        }
    }
}

#[test]
fn a_preview_has_no_path_and_may_have_no_time() {
    let conf = ExportUserConfig {
        task: ProjectTask::Preview(PreviewTask { when: None }),
        development: true,
        ..ExportUserConfig::default()
    };
    assert_eq!(conf.task.when(), None);
    assert!(conf.task.as_export().is_none());
    let signal = signals()[7];
    let task = ExportTask::new(false, conf);
    assert_eq!(
        task.signal_export(&artifact(signal, Some(false))),
        ExportSignal::Skip(Some(DevEvent::Export(DevExportEvent {
            id: "main".to_owned(),
            when: TaskWhen::Never,
            need_export: false,
            signal,
            path: None,
        })))
    );
}

#[test]
fn words_are_counted_for_an_editor_that_wants_it() {
    for attached in [false, true] {
        for count_words in [false, true] {
            let conf = ExportUserConfig { count_words, ..ExportUserConfig::default() };
            let task = ExportTask::new(attached, conf);
            let revision = task.signal_count_word(&artifact(signals()[0], None));
            assert_eq!(revision, if attached && count_words { Some(17) } else { None });
        }
    }
}

#[test]
fn a_changed_configuration_holds_from_then_on() {
    let mut task = ExportTask::new(true, ExportUserConfig::default());
    let saved = artifact(signals()[2], Some(false));
    assert_eq!(task.signal(&saved).export, ExportSignal::Skip(None));
    task.change_config(config(TaskWhen::OnSave));
    assert!(task.editor_attached);
    assert_eq!(
        task.signal(&saved).export,
        ExportSignal::Export { revision: 17, event: None }
    );
}

#[test]
fn counted_words_are_told_to_the_editor() {
    assert_eq!(
        word_count_request("main".to_owned(), Some(12)),
        Some(EditorRequest::WordCount("main".to_owned(), 12))
    );
    let none: Option<EditorRequest<u32>> = word_count_request("main".to_owned(), None);
    assert_eq!(none, None);
}

#[test]
fn only_values_are_kept() {
    let ok: Result<u8, &str> = Ok(1);
    assert_eq!(log_err(ok), Some(1));
    let err: Result<u8, &str> = Err("no");
    assert_eq!(log_err(err), None);
}

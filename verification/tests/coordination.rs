use shutdown_async::RecvStep;
use shutdown_async::ShutdownController;
use shutdown_async::ShutdownMonitor;

fn runtime() -> tokio::runtime::Runtime {
    tokio::runtime::Builder::new_current_thread().build().unwrap()
}

/// Receive the shutdown signal: the waiting half that the library's
/// `recv_step` / `note_signal` contracts direct.
async fn drive_recv(monitor: &mut ShutdownMonitor) {
    match monitor.recv_step() {
        RecvStep::Done => {}
        RecvStep::AwaitSignal => {
            let _ = monitor.shutdown_notifier.recv().await;
            monitor.note_signal();
        }
    }
}

/// Shut down and wait for every monitor to be dropped.
async fn drive_shutdown(controller: ShutdownController) {
    let mut waiter = controller.begin_shutdown();
    let _ = waiter.recv().await;
}

#[test]
fn shutdown_completes() {
    runtime().block_on(async {
        let shutdown = ShutdownController::new();

        let t = tokio::spawn({
            let mut monitor = shutdown.subscribe();
            async move {
                drive_recv(&mut monitor).await;
            }
        });

        drive_shutdown(shutdown).await;
        assert!(t.await.is_ok());
    });
}

#[test]
fn monitor_is_not_ready_for_shutdown() {
    let shutdown = ShutdownController::new();
    let monitor = shutdown.subscribe();
    assert!(!monitor.is_shutdown());
}

#[test]
fn monitor_is_not_ready_for_shutdown2() {
    runtime().block_on(async {
        let shutdown = ShutdownController::new();

        let t = tokio::spawn({
            let mut monitor = shutdown.subscribe();
            async move {
                assert!(!monitor.is_shutdown());
                drive_recv(&mut monitor).await;
            }
        });

        drive_shutdown(shutdown).await;
        assert!(t.await.is_ok());
    });
}

#[test]
fn monitor_is_ready_for_shutdown() {
    runtime().block_on(async {
        let shutdown = ShutdownController::new();

        let t = tokio::spawn({
            let mut monitor = shutdown.subscribe();
            async move {
                drive_recv(&mut monitor).await;
                assert!(monitor.is_shutdown());
            }
        });

        drive_shutdown(shutdown).await;
        assert!(t.await.is_ok());
    });
}

#[test]
fn shutdown_completes_with_no_monitors() {
    runtime().block_on(async {
        let shutdown = ShutdownController::new();
        let mut waiter = shutdown.begin_shutdown();
        assert!(waiter.recv().await.is_none());
    });
}

#[test]
fn shutdown_completes_with_many_monitors() {
    runtime().block_on(async {
        let shutdown = ShutdownController::new();

        let mut tasks = Vec::new();
        for _ in 0..3 {
            let mut monitor = shutdown.subscribe();
            tasks.push(tokio::spawn(async move {
                drive_recv(&mut monitor).await;
                assert!(monitor.is_shutdown());
            }));
        }

        drive_shutdown(shutdown).await;
        for t in tasks {
            assert!(t.await.is_ok());
        }
    });
}

#[test]
fn recv_twice_returns_immediately() {
    runtime().block_on(async {
        let shutdown = ShutdownController::new();
        let mut monitor = shutdown.subscribe();
        let mut waiter = shutdown.begin_shutdown();

        drive_recv(&mut monitor).await;
        assert!(monitor.is_shutdown());
        assert!(matches!(monitor.recv_step(), RecvStep::Done));

        drive_recv(&mut monitor).await;
        assert!(monitor.is_shutdown());

        drop(monitor);
        assert!(waiter.recv().await.is_none());
    });
}

#[test]
fn monitors_observe_independently() {
    runtime().block_on(async {
        let shutdown = ShutdownController::new();
        let mut first = shutdown.subscribe();
        let mut second = shutdown.subscribe();
        let mut waiter = shutdown.begin_shutdown();

        drive_recv(&mut first).await;
        assert!(first.is_shutdown());
        assert!(!second.is_shutdown());

        drive_recv(&mut second).await;
        assert!(second.is_shutdown());

        drop(first);
        drop(second);
        assert!(waiter.recv().await.is_none());
    });
}

#[test]
fn monitor_dropped_without_recv() {
    runtime().block_on(async {
        let shutdown = ShutdownController::new();
        let monitor = shutdown.subscribe();
        drop(monitor);

        let mut waiter = shutdown.begin_shutdown();
        assert!(waiter.recv().await.is_none());
    });
}

#[test]
fn subscribe_after_monitor_dropped() {
    runtime().block_on(async {
        let shutdown = ShutdownController::new();
        let first = shutdown.subscribe();
        drop(first);

        let mut second = shutdown.subscribe();
        assert!(!second.is_shutdown());

        let t = tokio::spawn(async move {
            drive_recv(&mut second).await;
            second.is_shutdown()
        });

        drive_shutdown(shutdown).await;
        assert!(t.await.unwrap());
    });
}

#[test]
fn monitor_checks_before_and_after_recv() {
    runtime().block_on(async {
        let shutdown = ShutdownController::new();

        let t = tokio::spawn({
            let mut monitor = shutdown.subscribe();
            async move {
                assert!(!monitor.is_shutdown());
                drive_recv(&mut monitor).await;
                assert!(monitor.is_shutdown());
            }
        });

        drive_shutdown(shutdown).await;
        assert!(t.await.is_ok());
    });
}

#[test]
fn recv_step_follows_flag() {
    let shutdown = ShutdownController::new();
    let mut monitor = shutdown.subscribe();

    assert!(matches!(monitor.recv_step(), RecvStep::AwaitSignal));
    assert!(!monitor.is_shutdown());

    monitor.note_signal();
    assert!(monitor.is_shutdown());
    assert!(matches!(monitor.recv_step(), RecvStep::Done));
}

#[test]
fn default_controller_subscribes_unsignaled_monitors() {
    let shutdown = ShutdownController::default();
    let monitor = shutdown.subscribe();
    assert!(!monitor.is_shutdown());
}

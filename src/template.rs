//! The fixed text of a demo page, between the places where a demo's own
//! values are inserted.

use vstd::prelude::*;

verus! {

/// From the document's start to the inside of its `<title>`.
pub const PAGE_HEAD: &'static str = r#"<!DOCTYPE html>
<html lang="en">
<head>
  <meta charset="UTF-8" />
  <meta name="viewport" content="width=device-width, initial-scale=1.0" />
  <title>"#;

/// Follows the file name in the title.
pub const TITLE_SUFFIX: &'static str = " \u{2013} Rive Demo";

/// From the end of the title to the value of the canvas colour picker.
pub const PAGE_STYLE: &'static str = r#"</title>
  <style>
    :root { color-scheme: dark; }
    *, *::before, *::after { box-sizing: border-box; }
    body {
      margin: 0;
      min-height: 100vh;
      background: #050608;
      color: #c9d1d9;
      font-family: "Monaco","Menlo","Ubuntu Mono",monospace;
      display: flex;
      flex-direction: column;
    }
    main { flex: 1; display: flex; flex-direction: row; padding: 20px; gap: 12px; }
    .stage { flex: 1; display: flex; flex-direction: column; gap: 12px; }
    #rive-canvas {
      width: 100%;
      flex: 1;
      border: 1px solid #30363d;
      border-radius: 8px;
      background: var(--canvas-color, #0d1117);
      display: block;
    }
    body.transparent-canvas #rive-canvas { background: transparent; }
    .controls { display: flex; gap: 12px; flex-wrap: wrap; align-items: center; }
    button {
      padding: 8px 18px;
      border-radius: 6px;
      border: 1px solid #30363d;
      background: #21262d;
      color: inherit;
      font-weight: 600;
      cursor: pointer;
    }
    button:hover { background: #30363d; }
    label { font-size: 13px; display: flex; align-items: center; gap: 8px; }
    input[type="color"] {
      width: 48px;
      height: 48px;
      border: 1px solid #30363d;
      border-radius: 6px;
      padding: 0;
      background: transparent;
      cursor: pointer;
    }
    #vm-panel {
      width: 280px;
      overflow: auto;
      border: 1px solid #30363d;
      border-radius: 8px;
      padding: 12px;
      font-size: 12px;
      display: none;
    }
    #vm-panel.visible { display: block; }
    #vm-panel details { margin-left: 10px; }
    #vm-panel .leaf { margin-left: 22px; color: #8b949e; }
    footer {
      padding: 12px 20px;
      font-size: 12px;
      color: #8b949e;
      border-top: 1px solid #30363d;
    }
    body.fullscreen-mode main { padding: 0; gap: 0; }
    body.fullscreen-mode #rive-canvas { border: none; border-radius: 0; }
    body.fullscreen-mode .controls,
    body.fullscreen-mode #vm-panel,
    body.fullscreen-mode footer { display: none; }
  </style>
</head>
<body>
  <main>
    <div class="stage">
      <canvas id="rive-canvas"></canvas>
      <div class="controls">
        <button id="play-btn">Play</button>
        <button id="pause-btn">Pause</button>
        <button id="fullscreen-btn">Fullscreen</button>
        <label>Canvas color<input type="color" id="bg-color-input" value=""#;

/// From the colour picker to the file name in the footer.
pub const PAGE_BODY: &'static str = r#""></label>
      </div>
    </div>
    <aside id="vm-panel"></aside>
  </main>
  <footer><span id="file-name">"#;

/// Between the file name and the runtime's label.
pub const FOOTER_RUNTIME: &'static str = r#"</span> &middot; "#;

/// Between the runtime's label and its version.
pub const FOOTER_VERSION: &'static str = r#" runtime "#;

/// From the runtime version to the inside of the configuration literal.
pub const CONFIG_OPEN: &'static str = r#"</footer>
  <script>
    window.__DEMO_CONFIG__ = JSON.parse('"#;

/// From the configuration literal to the inside of the view-model literal.
pub const VIEW_MODELS_OPEN: &'static str = r#"');
    window.__DEMO_VIEW_MODELS__ = JSON.parse('"#;

/// From the view-model literal to the inside of the runtime's script element.
pub const RUNTIME_OPEN: &'static str = r#"');
  </script>
  <script>"#;

/// From the runtime's script to the document's end: the player itself.
pub const PAGE_PLAYER: &'static str = r#"</script>
  <script>
    (function() {
      const config = window.__DEMO_CONFIG__;
      const viewModels = window.__DEMO_VIEW_MODELS__;
      const canvas = document.getElementById('rive-canvas');
      const layout = new window.rive.Layout({
        fit: config.layoutFit || 'contain',
        alignment: 'center'
      });

      function applyCanvasColor(color) {
        document.documentElement.style.setProperty('--canvas-color', color);
      }

      if (config.canvasTransparent) {
        document.body.classList.add('transparent-canvas');
      }

      const colorInput = document.getElementById('bg-color-input');
      const startColor = config.canvasColor || '#0d1117';
      colorInput.value = startColor;
      applyCanvasColor(startColor);
      colorInput.addEventListener('input', (event) => {
        applyCanvasColor(event.target.value);
      });

      function base64ToUrl(base64) {
        const binary = atob(base64);
        const bytes = new Uint8Array(binary.length);
        for (let i = 0; i < binary.length; i++) {
          bytes[i] = binary.charCodeAt(i);
        }
        const blob = new Blob([bytes], { type: 'application/octet-stream' });
        return URL.createObjectURL(blob);
      }

      function renderNode(value, name) {
        if (value !== null && typeof value === 'object') {
          const details = document.createElement('details');
          details.open = true;
          const summary = document.createElement('summary');
          summary.textContent = name;
          details.appendChild(summary);
          for (const key of Object.keys(value)) {
            details.appendChild(renderNode(value[key], key));
          }
          return details;
        }
        const leaf = document.createElement('div');
        leaf.className = 'leaf';
        leaf.textContent = name + ': ' + String(value);
        return leaf;
      }

      if (viewModels !== null) {
        const panel = document.getElementById('vm-panel');
        panel.appendChild(renderNode(viewModels, 'View models'));
        panel.classList.add('visible');
      }

      const animationUrl = base64ToUrl(config.animationBase64);
      let riveInstance;

      function resizeCanvas() {
        const ratio = window.devicePixelRatio || 1;
        canvas.width = canvas.clientWidth * ratio;
        canvas.height = canvas.clientHeight * ratio;
      }

      function initRive() {
        if (riveInstance) {
          riveInstance.cleanup?.();
          riveInstance = null;
        }
        riveInstance = new window.rive.Rive({
          src: animationUrl,
          canvas,
          autoplay: config.autoplay !== false,
          autoBind: true,
          stateMachines: config.stateMachines || [],
          artboard: config.artboardName || undefined,
          layout,
          onLoad: () => {
            resizeCanvas();
            riveInstance?.resizeDrawingSurfaceToCanvas();
          }
        });
      }

      document.getElementById('play-btn').addEventListener('click', () => riveInstance?.play());
      document.getElementById('pause-btn').addEventListener('click', () => riveInstance?.pause());
      document.getElementById('fullscreen-btn').addEventListener('click', () => {
        document.body.classList.add('fullscreen-mode');
      });
      document.addEventListener('keydown', (event) => {
        if (event.key === 'Escape') {
          document.body.classList.remove('fullscreen-mode');
        }
      });

      window.addEventListener('resize', () => {
        resizeCanvas();
        riveInstance?.resizeDrawingSurfaceToCanvas();
      });

      initRive();
    })();
  </script>
</body>
</html>
"#;

} // verus!

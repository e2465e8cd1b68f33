//! The fixed text of the directory listing and dashboard pages, cut where values go in.
use vstd::prelude::*;

verus! {

/// Part 0 of the directory listing page.
pub const LISTING_PAGE_0: &'static str = "<!doctype html>
<html lang=\"en\">
  <head>
    <meta charset=\"utf-8\">
    <meta name=\"viewport\" content=\"width=device-width, initial-scale=1\">
    <meta name=\"color-scheme\" content=\"dark light\">
    <title>Browse ";

pub const LISTING_PAGE_1_A: &'static str = "</title>
    <script>
      (() => {
        const memoryStorage = Object.create(null);
        const safeStorage = {
          get(key) {
            try {
              return window.localStorage.getItem(key);
            } catch (_error) {
              return Object.prototype.hasOwnProperty.call(memoryStorage, key) ? memoryStorage[key] : null;
            }
          },
          set(key, value) {
            memoryStorage[key] = String(value);
            try {
              window.localStorage.setItem(key, String(value));
            } catch (_error) {
            }
          }
        };
        window.__serveHerePrefs = safeStorage;
        const storedTheme = safeStorage.get(\"serve-here-theme\");
        const storedLang = safeStorage.get(\"serve-here-lang\");
        const theme = storedTheme || (window.matchMedia(\"(prefers-color-scheme: light)\").matches ? \"light\" : \"dark\");
        const lang = storedLang || ((navigator.language || \"en\").toLowerCase().startsWith(\"zh\") ? \"zh\" : \"en\");
        document.documentElement.dataset.theme = theme;
        document.documentElement.dataset.lang = lang;
        document.documentElement.lang = lang === \"zh\" ? \"zh-CN\" : \"en\";
      })();
    </script>
    <style>
      :root {
        color-scheme: dark;
        --bg-start: #07111f;
        --bg-end: #050b14;
        --grid-line: rgba(255, 255, 255, 0.022);
        --panel: rgba(10, 18, 34, 0.82);
        --panel-strong: rgba(14, 26, 49, 0.92);
        --panel-soft: rgba(148, 163, 184, 0.07);
        --line: rgba(148, 163, 184, 0.16);
        --text: #e7eefb;
        --muted: #96abc9;
        --accent: #7c5cff;
        --accent-soft: rgba(124, 92, 255, 0.18);
        --accent-glow: rgba(119, 200, 255, 0.22);
        --accent-contrast: #f8fbff;
        --code-bg: rgba(148, 163, 184, 0.12);
        --code-text: #dff4ff;
        --shadow: 0 24px 64px rgba(0, 0, 0, 0.28);
        --table-head: rgba(6, 12, 24, 0.92);
        --table-hover: rgba(124, 92, 255, 0.08);
      }

";

pub const LISTING_PAGE_1_B: &'static str = "      html[data-theme=\"light\"] {
        color-scheme: light;
        --bg-start: #f6f8fc;
        --bg-end: #e8eef7;
        --grid-line: rgba(15, 23, 42, 0.04);
        --panel: rgba(255, 255, 255, 0.9);
        --panel-strong: rgba(248, 251, 255, 0.96);
        --panel-soft: rgba(79, 70, 229, 0.05);
        --line: rgba(100, 116, 139, 0.18);
        --text: #13233c;
        --muted: #607089;
        --accent: #4f46e5;
        --accent-soft: rgba(79, 70, 229, 0.1);
        --accent-glow: rgba(14, 165, 233, 0.12);
        --accent-contrast: #ffffff;
        --code-bg: rgba(79, 70, 229, 0.08);
        --code-text: #243b7a;
        --shadow: 0 20px 52px rgba(86, 102, 129, 0.14);
        --table-head: rgba(245, 248, 252, 0.92);
        --table-hover: rgba(79, 70, 229, 0.05);
      }

      * { box-sizing: border-box; }
      html, body { margin: 0; min-height: 100%; }
      body {
        font-family: Inter, ui-sans-serif, system-ui, -apple-system, BlinkMacSystemFont, \"Segoe UI\", sans-serif;
        font-size: 14px;
        background:
          radial-gradient(circle at top left, rgba(124, 92, 255, 0.18), transparent 24%),
          radial-gradient(circle at top right, var(--accent-glow), transparent 22%),
          linear-gradient(180deg, var(--bg-start) 0%, var(--bg-end) 100%);
        color: var(--text);
        line-height: 1.42;
      }

      body::before {
        content: \"\";
        position: fixed;
        inset: 0;
        background-image:
          linear-gradient(var(--grid-line) 1px, transparent 1px),
          linear-gradient(90deg, var(--grid-line) 1px, transparent 1px);
        background-size: 32px 32px;
        mask-image: linear-gradient(180deg, rgba(0,0,0,0.78), transparent);
        pointer-events: none;
      }

      a { color: inherit; text-decoration: none; }
      code {
        padding: 0.14rem 0.42rem;
        border-radius: 999px;
        background: var(--code-bg);
        color: var(--code-text);
      }

      .shell {
";

pub const LISTING_PAGE_1_C: &'static str = "        width: min(1320px, calc(100vw - 32px));
        margin: 0 auto;
        padding: 14px 0 28px;
      }

      .hero-card,
      .panel {
        background: var(--panel);
        border: 1px solid var(--line);
        border-radius: 24px;
        backdrop-filter: blur(18px);
        box-shadow: var(--shadow);
      }

      .hero {
        margin-bottom: 12px;
      }

      .hero-card {
        padding: 14px;
      }

      .hero-top {
        display: grid;
        grid-template-columns: minmax(0, 1fr) auto;
        gap: 14px;
        align-items: start;
      }

      .eyebrow {
        display: inline-flex;
        align-items: center;
        gap: 8px;
        padding: 5px 10px;
        border-radius: 999px;
        background: var(--accent-soft);
        color: var(--accent);
        font-size: 10px;
        font-weight: 700;
        text-transform: uppercase;
        letter-spacing: 0.1em;
      }

      .hero h1 {
        margin: 8px 0 3px;
        font-size: clamp(1.18rem, 1.55vw, 1.68rem);
        line-height: 1;
        letter-spacing: -0.04em;
      }

      .hero p {
        margin: 0;
        max-width: 58ch;
        color: var(--muted);
        font-size: 0.78rem;
      }

      .hero-side {
        display: flex;
        align-items: center;
        justify-content: flex-end;
        gap: 8px;
        flex-wrap: wrap;
      }

      .control-cluster {
        display: inline-flex;
        align-items: center;
        gap: 6px;
        padding: 4px;
        border-radius: 999px;
        background: var(--panel-soft);
        border: 1px solid var(--line);
      }

      .control-label {
        padding-left: 8px;
        color: var(--muted);
        font-size: 0.7rem;
        font-weight: 600;
      }

      .toggle-group {
        display: inline-flex;
        gap: 4px;
      }

      .toggle-button,
      .button {
        display: inline-flex;
        align-items: center;
        justify-content: center;
        border: 0;
";

pub const LISTING_PAGE_1_D: &'static str = "        cursor: pointer;
        color: inherit;
        font: inherit;
      }

      .toggle-button {
        padding: 6px 10px;
        border-radius: 999px;
        background: transparent;
        color: var(--muted);
        font-size: 0.78rem;
        font-weight: 700;
      }

      .toggle-button.active {
        background: linear-gradient(135deg, rgba(124, 92, 255, 0.32), rgba(119, 200, 255, 0.18));
        color: var(--text);
      }

      .hero-actions {
        display: inline-flex;
        gap: 8px;
        flex-wrap: wrap;
      }

      .button {
        padding: 7px 12px;
        border-radius: 999px;
        font-size: 0.82rem;
        font-weight: 700;
        background: linear-gradient(135deg, rgba(124, 92, 255, 0.36), rgba(119, 200, 255, 0.24));
        color: var(--accent-contrast);
        border: 1px solid rgba(180, 194, 255, 0.2);
      }

      .button.secondary {
        background: var(--panel-soft);
        color: var(--text);
      }

      .hero-meta {
        margin-top: 10px;
        display: grid;
        grid-template-columns: 1.4fr 0.9fr 1fr;
        gap: 8px;
      }

      .meta-chip {
        padding: 8px 10px;
        border-radius: 16px;
        background: var(--panel-strong);
        border: 1px solid var(--line);
      }

      .meta-chip-label {
        margin-bottom: 4px;
        color: var(--muted);
        font-size: 0.66rem;
        font-weight: 700;
        text-transform: uppercase;
        letter-spacing: 0.08em;
      }

      .meta-chip-value {
        font-size: 0.82rem;
        font-weight: 700;
        line-height: 1.32;
        overflow-wrap: anywhere;
      }

      .meta-chip-value.path {
        font-size: 0.74rem;
      }

      .panel {
        padding: 14px;
      }

      .breadcrumb {
        display: flex;
        align-items: center;
        flex-wrap: wrap;
        gap: 7px;
        margin-bottom: 10px;
        color: var(--muted);
      }

      .crumb {
        display: inline-flex;
";

pub const LISTING_PAGE_1_E: &'static str = "        align-items: center;
        gap: 8px;
        padding: 7px 10px;
        border-radius: 999px;
        background: var(--panel-soft);
        border: 1px solid var(--line);
      }

      .summary-grid {
        display: grid;
        grid-template-columns: repeat(4, minmax(0, 1fr));
        gap: 8px;
        margin-bottom: 10px;
      }

      .summary-card {
        display: flex;
        align-items: center;
        justify-content: space-between;
        gap: 10px;
        padding: 10px 12px;
        border-radius: 16px;
        background: var(--panel-soft);
        border: 1px solid var(--line);
      }

      .summary-card .label {
        color: var(--muted);
        font-size: 0.72rem;
        font-weight: 600;
      }

      .summary-card .value {
        font-size: 0.94rem;
        font-weight: 760;
        letter-spacing: -0.03em;
        text-align: right;
      }

      .toolbar {
        display: grid;
        grid-template-columns: minmax(240px, 1fr) auto;
        gap: 10px;
        margin-bottom: 12px;
      }

      .search {
        width: 100%;
        border: 1px solid var(--line);
        border-radius: 16px;
        background: var(--panel-soft);
        color: var(--text);
        padding: 11px 13px;
        font: inherit;
      }

      .search:focus {
        outline: none;
        border-color: rgba(119, 200, 255, 0.55);
        box-shadow: 0 0 0 4px rgba(119, 200, 255, 0.12);
      }

      .segmented {
        display: inline-flex;
        gap: 6px;
        padding: 4px;
        border-radius: 16px;
        background: var(--panel-soft);
        border: 1px solid var(--line);
      }

      .segmented button {
        border: 0;
        background: transparent;
        color: var(--muted);
        font: inherit;
        font-size: 0.8rem;
        font-weight: 700;
        padding: 8px 12px;
        border-radius: 12px;
        cursor: pointer;
      }

      .segmented button.active {
";

pub const LISTING_PAGE_1_F: &'static str = "        background: linear-gradient(135deg, rgba(124, 92, 255, 0.24), rgba(119, 200, 255, 0.16));
        color: var(--text);
      }

      .table-wrap {
        overflow: auto;
        border-radius: 20px;
        border: 1px solid var(--line);
        background: var(--panel-soft);
      }

      table {
        width: 100%;
        border-collapse: collapse;
        min-width: 760px;
      }

      th, td {
        padding: 12px 14px;
        text-align: left;
        border-bottom: 1px solid var(--line);
        vertical-align: middle;
      }

      thead th {
        position: sticky;
        top: 0;
        z-index: 1;
        font-size: 0.74rem;
        font-weight: 700;
        text-transform: uppercase;
        letter-spacing: 0.08em;
        color: var(--muted);
        background: var(--table-head);
        backdrop-filter: blur(12px);
      }

      tbody tr:hover {
        background: var(--table-hover);
      }

      .entry-link {
        display: flex;
        align-items: center;
        gap: 12px;
      }

      .entry-icon {
        width: 38px;
        height: 38px;
        border-radius: 12px;
        display: inline-flex;
        align-items: center;
        justify-content: center;
        flex: 0 0 auto;
      }

      .entry-icon svg {
        width: 20px;
        height: 20px;
      }

      .entry-icon.directory {
        color: #ebf4ff;
        background: linear-gradient(135deg, rgba(124, 92, 255, 0.42), rgba(119, 200, 255, 0.2));
      }

      .entry-icon.file {
        color: var(--text);
        background: rgba(148, 163, 184, 0.12);
      }

      .entry-main {
        display: grid;
        gap: 2px;
        min-width: 0;
      }

      .entry-name {
        font-size: 0.93rem;
        font-weight: 700;
        overflow-wrap: anywhere;
      }

      .entry-meta {
        color: var(--muted);
        font-size: 0.77rem;
      }

      .kind-badge {
        display: inline-flex;
        align-items: center;
";

pub const LISTING_PAGE_1_G: &'static str = "        justify-content: center;
        padding: 6px 10px;
        border-radius: 999px;
        font-size: 0.72rem;
        font-weight: 700;
      }

      .kind-badge.directory {
        color: #ece2ff;
        background: rgba(124, 92, 255, 0.16);
      }

      html[data-theme=\"light\"] .kind-badge.directory {
        color: #4c1d95;
        background: rgba(124, 92, 255, 0.12);
      }

      .kind-badge.file {
        color: #dff4ff;
        background: rgba(119, 200, 255, 0.12);
      }

      html[data-theme=\"light\"] .kind-badge.file {
        color: #0f4c75;
        background: rgba(14, 165, 233, 0.12);
      }

      .empty-state {
        padding: 26px 14px;
        color: var(--muted);
        text-align: center;
      }

      .footer {
        margin-top: 12px;
        color: var(--muted);
        font-size: 0.78rem;
      }

      .footer a {
        font-weight: 700;
      }

      @media (max-width: 1080px) {
        .hero-top,
        .toolbar {
          grid-template-columns: 1fr;
        }

        .hero-side {
          justify-content: flex-start;
        }
      }

      @media (max-width: 980px) {
        .shell {
          width: min(100vw - 20px, 100%);
          padding-top: 10px;
        }

        .hero-meta,
        .summary-grid {
          grid-template-columns: 1fr;
        }
      }

      @media (max-width: 640px) {
        .hero-card,
        .panel {
          padding: 12px;
          border-radius: 20px;
        }

        .summary-card {
          align-items: flex-start;
          flex-direction: column;
        }
      }
    </style>
  </head>
  <body>
    <main class=\"shell\">
      <section class=\"hero\">
        <article class=\"hero-card\">
          <div class=\"hero-top\">
            <div>
              <div class=\"eyebrow\" data-i18n=\"eyebrow\">Directory explorer</div>
              <h1 id=\"browseHeading\" data-request-path=\"";

/// Part 1 of the directory listing page.
pub open spec fn listing_page_1() -> Seq<char> {
    LISTING_PAGE_1_A@
        + LISTING_PAGE_1_B@
        + LISTING_PAGE_1_C@
        + LISTING_PAGE_1_D@
        + LISTING_PAGE_1_E@
        + LISTING_PAGE_1_F@
        + LISTING_PAGE_1_G@
}

/// Appends part 1 of the directory listing page.
pub fn push_listing_page_1(out: &mut String)
    ensures
        final(out)@ == old(out)@ + listing_page_1(),
{
    out.append(LISTING_PAGE_1_A);
    out.append(LISTING_PAGE_1_B);
    out.append(LISTING_PAGE_1_C);
    out.append(LISTING_PAGE_1_D);
    out.append(LISTING_PAGE_1_E);
    out.append(LISTING_PAGE_1_F);
    out.append(LISTING_PAGE_1_G);
    assert(final(out)@ =~= old(out)@ + listing_page_1());
}

/// Part 2 of the directory listing page.
pub const LISTING_PAGE_2: &'static str = "\">Browse ";

/// Part 3 of the directory listing page.
pub const LISTING_PAGE_3: &'static str = "</h1>
              <p data-i18n=\"hero_description\">Live directory index with filtering, metadata, and quick navigation.</p>
            </div>
            <div class=\"hero-side\">
              <div class=\"control-cluster\">
                <span class=\"control-label\" data-i18n=\"theme_label\">Theme</span>
                <div class=\"toggle-group\" id=\"themeToggle\">
                  <button type=\"button\" class=\"toggle-button\" data-theme-choice=\"dark\" data-i18n=\"theme_dark\">Dark</button>
                  <button type=\"button\" class=\"toggle-button\" data-theme-choice=\"light\" data-i18n=\"theme_light\">Light</button>
                </div>
              </div>
              <div class=\"control-cluster\">
                <span class=\"control-label\" data-i18n=\"language_label\">Language</span>
                <div class=\"toggle-group\" id=\"langToggle\">
                  <button type=\"button\" class=\"toggle-button\" data-lang-choice=\"en\">EN</button>
                  <button type=\"button\" class=\"toggle-button\" data-lang-choice=\"zh\">中文</button>
                </div>
              </div>
              <div class=\"hero-actions\">
                <a class=\"button\" href=\"";

/// Part 4 of the directory listing page.
pub const LISTING_PAGE_4: &'static str = "\" data-role=\"open-dashboard\" data-i18n=\"open_dashboard\">Open stats dashboard</a>
                <a class=\"button secondary\" href=\"/\" data-role=\"jump-root\" data-i18n=\"jump_to_root\">Jump to root</a>
              </div>
            </div>
          </div>
          <div class=\"hero-meta\">
            <div class=\"meta-chip\">
              <div class=\"meta-chip-label\" data-i18n=\"filesystem_path\">Filesystem path</div>
              <div class=\"meta-chip-value path\">";

/// Part 5 of the directory listing page.
pub const LISTING_PAGE_5: &'static str = "</div>
            </div>
            <div class=\"meta-chip\">
              <div class=\"meta-chip-label\" data-i18n=\"current_route\">Current route</div>
              <div class=\"meta-chip-value\"><code>";

/// Part 6 of the directory listing page.
pub const LISTING_PAGE_6: &'static str = "</code></div>
            </div>
            <div class=\"meta-chip\">
              <div class=\"meta-chip-label\" data-i18n=\"sorting\">Sorting</div>
              <div class=\"meta-chip-value\" data-i18n=\"sorting_value\">Directories first, then alphabetical</div>
            </div>
          </div>
        </article>
      </section>

      <section class=\"panel\">
        <nav class=\"breadcrumb\">";

/// Part 7 of the directory listing page.
pub const LISTING_PAGE_7: &'static str = "</nav>

        <section class=\"summary-grid\">
          <article class=\"summary-card\">
            <div class=\"label\" data-i18n=\"folders\">Folders</div>
            <div class=\"value\">";

/// Part 8 of the directory listing page.
pub const LISTING_PAGE_8: &'static str = "</div>
          </article>
          <article class=\"summary-card\">
            <div class=\"label\" data-i18n=\"files\">Files</div>
            <div class=\"value\">";

/// Part 9 of the directory listing page.
pub const LISTING_PAGE_9: &'static str = "</div>
          </article>
          <article class=\"summary-card\">
            <div class=\"label\" data-i18n=\"visible_file_size\">Visible file size</div>
            <div class=\"value\">";

/// Part 10 of the directory listing page.
pub const LISTING_PAGE_10: &'static str = "</div>
          </article>
          <article class=\"summary-card\">
            <div class=\"label\" data-i18n=\"latest_modified\">Latest modified</div>
            <div class=\"value\">";

/// Part 11 of the directory listing page.
pub const LISTING_PAGE_11: &'static str = "</div>
          </article>
        </section>

        <section class=\"toolbar\">
          <input id=\"searchInput\" class=\"search\" type=\"search\" data-i18n-placeholder=\"search_placeholder\" placeholder=\"Filter by file or folder name...\">
          <div class=\"segmented\" data-i18n-aria=\"filter_entries\" aria-label=\"Filter entries\">
            <button type=\"button\" class=\"active\" data-filter=\"all\" data-i18n=\"filter_all\">All</button>
            <button type=\"button\" data-filter=\"directory\" data-i18n=\"filter_folders\">Folders</button>
            <button type=\"button\" data-filter=\"file\" data-i18n=\"filter_files\">Files</button>
          </div>
        </section>

        <div class=\"table-wrap\">
          <table>
            <thead>
              <tr>
                <th data-i18n=\"table_name\">Name</th>
                <th data-i18n=\"table_type\">Type</th>
                <th data-i18n=\"table_size\">Size</th>
                <th data-i18n=\"table_last_modified\">Last modified</th>
              </tr>
            </thead>
            <tbody>
              ";

/// Part 12 of the directory listing page.
pub const LISTING_PAGE_12: &'static str = "
              ";

/// Part 13 of the directory listing page.
pub const LISTING_PAGE_13: &'static str = "
              ";

pub const LISTING_PAGE_14_A: &'static str = "
            </tbody>
          </table>
        </div>

        <div class=\"footer\">
          <span id=\"footerCopy\">Served by</span>
          <a href=\"https://github.com/chenpu17/serve-here\" target=\"_blank\" rel=\"noreferrer\">serve-here</a>.
          <span id=\"footerTail\">Files are shown directly from the host filesystem and update on refresh.</span>
        </div>
      </section>
    </main>

    <script>
      const copy = {
        en: {
          page_title: \"Browse {path}\",
          browse_heading: \"Browse {path}\",
          eyebrow: \"Directory explorer\",
          hero_description: \"Live directory index with filtering, metadata, and quick navigation.\",
          theme_label: \"Theme\",
          theme_dark: \"Dark\",
          theme_light: \"Light\",
          language_label: \"Language\",
          open_dashboard: \"Open stats dashboard\",
          jump_to_root: \"Jump to root\",
          filesystem_path: \"Filesystem path\",
          current_route: \"Current route\",
          sorting: \"Sorting\",
          sorting_value: \"Directories first, then alphabetical\",
          folders: \"Folders\",
          files: \"Files\",
          visible_file_size: \"Visible file size\",
          latest_modified: \"Latest modified\",
          search_placeholder: \"Filter by file or folder name...\",
          filter_entries: \"Filter entries\",
          filter_all: \"All\",
          filter_folders: \"Folders\",
          filter_files: \"Files\",
          table_name: \"Name\",
          table_type: \"Type\",
          table_size: \"Size\",
          table_last_modified: \"Last modified\",
          kind_directory: \"Directory\",
          kind_file: \"File\",
          entry_meta_directory: \"Open folder\",
          entry_meta_file: \"Download or preview file\",
          parent_directory: \"Parent directory\",
          parent_directory_meta: \"Step up one level\",
          empty_directory: \"This directory is empty.\",
          empty_filtered: \"No entries match the current filter.\",
";

pub const LISTING_PAGE_14_B: &'static str = "          breadcrumb_root: \"Root\",
          footer_copy: \"Served by\",
          footer_tail: \"Files are shown directly from the host filesystem and update on refresh.\"
        },
        zh: {
          page_title: \"浏览 {path}\",
          browse_heading: \"浏览 {path}\",
          eyebrow: \"目录浏览器\",
          hero_description: \"实时目录索引，支持筛选、元数据查看与快速导航。\",
          theme_label: \"主题\",
          theme_dark: \"深色\",
          theme_light: \"亮色\",
          language_label: \"语言\",
          open_dashboard: \"打开统计面板\",
          jump_to_root: \"返回根目录\",
          filesystem_path: \"文件系统路径\",
          current_route: \"当前路由\",
          sorting: \"排序方式\",
          sorting_value: \"文件夹优先，其后按字母顺序\",
          folders: \"文件夹\",
          files: \"文件\",
          visible_file_size: \"可见文件大小\",
          latest_modified: \"最近修改\",
          search_placeholder: \"按文件或文件夹名称筛选...\",
          filter_entries: \"筛选条目\",
          filter_all: \"全部\",
          filter_folders: \"文件夹\",
          filter_files: \"文件\",
          table_name: \"名称\",
          table_type: \"类型\",
          table_size: \"大小\",
          table_last_modified: \"最近修改\",
          kind_directory: \"文件夹\",
          kind_file: \"文件\",
          entry_meta_directory: \"打开文件夹\",
          entry_meta_file: \"下载或预览文件\",
          parent_directory: \"上级目录\",
          parent_directory_meta: \"返回上一层\",
          empty_directory: \"当前目录为空。\",
          empty_filtered: \"没有符合当前筛选条件的条目。\",
          breadcrumb_root: \"根目录\",
          footer_copy: \"由\",
          footer_tail: \"文件直接从主机文件系统读取，刷新即可看到最新内容。\"
        }
      };

      const root = document.documentElement;
      const safeStorage = window.__serveHerePrefs || {
        get: () => null,
        set: () => {}
      };
      const ui = {
        theme: root.dataset.theme || \"dark\",
        lang: root.dataset.lang || \"en\"
      };

      const browseHeading = document.getElementById(\"browseHeading\");
      const searchInput = document.getElementById(\"searchInput\");
";

pub const LISTING_PAGE_14_C: &'static str = "      const themeButtons = Array.from(document.querySelectorAll(\"[data-theme-choice]\"));
      const langButtons = Array.from(document.querySelectorAll(\"[data-lang-choice]\"));
      const filterButtons = Array.from(document.querySelectorAll(\".segmented button\"));
      const rows = Array.from(document.querySelectorAll(\".entry-row\"));
      const emptyState = document.getElementById(\"emptyStateRow\");
      let activeFilter = \"all\";

      function translate(key, vars = {}) {
        const table = copy[ui.lang] || copy.en;
        let value = table[key] || copy.en[key] || key;
        for (const [name, replacement] of Object.entries(vars)) {
          value = value.replaceAll(`{${name}}`, replacement);
        }
        return value;
      }

      function applyTheme() {
        root.dataset.theme = ui.theme;
        safeStorage.set(\"serve-here-theme\", ui.theme);
        themeButtons.forEach(button => {
          button.classList.toggle(\"active\", button.dataset.themeChoice === ui.theme);
        });
      }

      function applyLanguage() {
        root.dataset.lang = ui.lang;
        root.lang = ui.lang === \"zh\" ? \"zh-CN\" : \"en\";
        safeStorage.set(\"serve-here-lang\", ui.lang);

        document.title = translate(\"page_title\", { path: browseHeading.dataset.requestPath });
        browseHeading.textContent = translate(\"browse_heading\", { path: browseHeading.dataset.requestPath });
        document.querySelectorAll(\"[data-i18n]\").forEach(node => {
          node.textContent = translate(node.dataset.i18n);
        });
        document.querySelectorAll(\"[data-i18n-placeholder]\").forEach(node => {
          node.placeholder = translate(node.dataset.i18nPlaceholder);
        });
        document.querySelectorAll(\"[data-i18n-aria]\").forEach(node => {
          node.setAttribute(\"aria-label\", translate(node.dataset.i18nAria));
        });
        document.getElementById(\"footerCopy\").textContent = translate(\"footer_copy\");
";

pub const LISTING_PAGE_14_D: &'static str = "        document.getElementById(\"footerTail\").textContent = translate(\"footer_tail\");
        langButtons.forEach(button => {
          button.classList.toggle(\"active\", button.dataset.langChoice === ui.lang);
        });
      }

      function applyFilters() {
        const query = searchInput.value.trim().toLowerCase();
        let visibleCount = 0;

        rows.forEach(row => {
          const name = row.dataset.name.toLowerCase();
          const kind = row.dataset.kind;
          const matchesText = !query || name.includes(query);
          const matchesKind = activeFilter === \"all\" || kind === activeFilter;
          const visible = matchesText && matchesKind;
          row.hidden = !visible;
          if (visible) {
            visibleCount += 1;
          }
        });

        emptyState.hidden = visibleCount !== 0;
      }

      themeButtons.forEach(button => {
        button.addEventListener(\"click\", () => {
          ui.theme = button.dataset.themeChoice;
          applyTheme();
        });
      });

      langButtons.forEach(button => {
        button.addEventListener(\"click\", () => {
          ui.lang = button.dataset.langChoice;
          applyLanguage();
        });
      });

      filterButtons.forEach(button => {
        button.addEventListener(\"click\", () => {
          activeFilter = button.dataset.filter;
          filterButtons.forEach(item => item.classList.toggle(\"active\", item === button));
          applyFilters();
        });
      });

      searchInput.addEventListener(\"input\", applyFilters);

      applyTheme();
      applyLanguage();
      applyFilters();
    </script>
  </body>
</html>";

/// Part 14 of the directory listing page.
pub open spec fn listing_page_14() -> Seq<char> {
    LISTING_PAGE_14_A@
        + LISTING_PAGE_14_B@
        + LISTING_PAGE_14_C@
        + LISTING_PAGE_14_D@
}

/// Appends part 14 of the directory listing page.
pub fn push_listing_page_14(out: &mut String)
    ensures
        final(out)@ == old(out)@ + listing_page_14(),
{
    out.append(LISTING_PAGE_14_A);
    out.append(LISTING_PAGE_14_B);
    out.append(LISTING_PAGE_14_C);
    out.append(LISTING_PAGE_14_D);
    assert(final(out)@ =~= old(out)@ + listing_page_14());
}

/// Part 0 of one row of the listing table.
pub const LISTING_ROW_0: &'static str = "<tr class=\"entry-row\" data-name=\"";

/// Part 1 of one row of the listing table.
pub const LISTING_ROW_1: &'static str = "\" data-kind=\"";

/// Part 2 of one row of the listing table.
pub const LISTING_ROW_2: &'static str = "\">
  <td>
    <a class=\"entry-link\" href=\"";

/// Part 3 of one row of the listing table.
pub const LISTING_ROW_3: &'static str = "\">
      <span class=\"entry-icon ";

/// Part 4 of one row of the listing table.
pub const LISTING_ROW_4: &'static str = "\">";

/// Part 5 of one row of the listing table.
pub const LISTING_ROW_5: &'static str = "</span>
      <span class=\"entry-main\">
        <span class=\"entry-name\">";

/// Part 6 of one row of the listing table.
pub const LISTING_ROW_6: &'static str = "</span>
        <span class=\"entry-meta\" data-i18n=\"";

/// Part 7 of one row of the listing table.
pub const LISTING_ROW_7: &'static str = "\">";

/// Part 8 of one row of the listing table.
pub const LISTING_ROW_8: &'static str = "</span>
      </span>
    </a>
  </td>
  <td><span class=\"kind-badge ";

/// Part 9 of one row of the listing table.
pub const LISTING_ROW_9: &'static str = "\" data-i18n=\"";

/// Part 10 of one row of the listing table.
pub const LISTING_ROW_10: &'static str = "\">";

/// Part 11 of one row of the listing table.
pub const LISTING_ROW_11: &'static str = "</span></td>
  <td>";

/// Part 12 of one row of the listing table.
pub const LISTING_ROW_12: &'static str = "</td>
  <td>";

/// Part 13 of one row of the listing table.
pub const LISTING_ROW_13: &'static str = "</td>
</tr>
";

pub const STATS_PAGE_0_A: &'static str = "<!doctype html>
<html lang=\"en\">
  <head>
    <meta charset=\"utf-8\">
    <meta name=\"viewport\" content=\"width=device-width, initial-scale=1\">
    <meta name=\"color-scheme\" content=\"dark light\">
    <title>serve-here stats</title>
    <script>
      (() => {
        const storedTheme = localStorage.getItem(\"serve-here-theme\");
        const storedLang = localStorage.getItem(\"serve-here-lang\");
        const theme = storedTheme || (window.matchMedia(\"(prefers-color-scheme: light)\").matches ? \"light\" : \"dark\");
        const lang = storedLang || ((navigator.language || \"en\").toLowerCase().startsWith(\"zh\") ? \"zh\" : \"en\");
        document.documentElement.dataset.theme = theme;
        document.documentElement.dataset.lang = lang;
        document.documentElement.lang = lang === \"zh\" ? \"zh-CN\" : \"en\";
      })();
    </script>
    <style>
      :root {
        color-scheme: dark;
        --bg-start: #08111f;
        --bg-end: #050b15;
        --grid-line: rgba(255, 255, 255, 0.024);
        --panel: rgba(11, 19, 36, 0.82);
        --panel-strong: rgba(17, 28, 48, 0.92);
        --panel-soft: rgba(148, 163, 184, 0.07);
        --line: rgba(148, 163, 184, 0.16);
        --text: #e8eefc;
        --muted: #9eb1cf;
        --accent: #77c8ff;
        --accent-strong: #7c5cff;
        --accent-soft: rgba(119, 200, 255, 0.14);
        --accent-glow: rgba(124, 92, 255, 0.2);
        --accent-contrast: #f8fbff;
        --code-bg: rgba(148, 163, 184, 0.12);
        --code-text: #dff4ff;
        --shadow: 0 24px 64px rgba(0, 0, 0, 0.3);
        --table-head: rgba(6, 12, 24, 0.92);
        --table-hover: rgba(124, 92, 255, 0.08);
      }

      html[data-theme=\"light\"] {
        color-scheme: light;
        --bg-start: #f6f8fc;
        --bg-end: #e8eef7;
        --grid-line: rgba(15, 23, 42, 0.04);
        --panel: rgba(255, 255, 255, 0.9);
        --panel-strong: rgba(248, 251, 255, 0.96);
        --panel-soft: rgba(79, 70, 229, 0.05);
        --line: rgba(100, 116, 139, 0.18);
";

pub const STATS_PAGE_0_B: &'static str = "        --text: #13233c;
        --muted: #607089;
        --accent: #0f77c7;
        --accent-strong: #5b56df;
        --accent-soft: rgba(14, 165, 233, 0.1);
        --accent-glow: rgba(14, 165, 233, 0.12);
        --accent-contrast: #ffffff;
        --code-bg: rgba(79, 70, 229, 0.08);
        --code-text: #243b7a;
        --shadow: 0 20px 52px rgba(86, 102, 129, 0.14);
        --table-head: rgba(245, 248, 252, 0.92);
        --table-hover: rgba(79, 70, 229, 0.05);
      }

      * { box-sizing: border-box; }
      html, body { margin: 0; min-height: 100%; }
      body {
        font-family: Inter, ui-sans-serif, system-ui, -apple-system, BlinkMacSystemFont, \"Segoe UI\", sans-serif;
        font-size: 14px;
        line-height: 1.42;
        background:
          radial-gradient(circle at top left, rgba(124, 92, 255, 0.16), transparent 22%),
          radial-gradient(circle at top right, var(--accent-glow), transparent 20%),
          linear-gradient(180deg, var(--bg-start) 0%, var(--bg-end) 100%);
        color: var(--text);
      }

      body::before {
        content: \"\";
        position: fixed;
        inset: 0;
        background-image:
          linear-gradient(var(--grid-line) 1px, transparent 1px),
          linear-gradient(90deg, var(--grid-line) 1px, transparent 1px);
        background-size: 32px 32px;
        mask-image: linear-gradient(180deg, rgba(0, 0, 0, 0.8), transparent);
        pointer-events: none;
      }

      a { color: inherit; text-decoration: none; }
      code {
        padding: 0.14rem 0.42rem;
        border-radius: 999px;
        background: var(--code-bg);
        color: var(--code-text);
      }

      .shell {
        width: min(1440px, calc(100vw - 32px));
        margin: 0 auto;
        padding: 14px 0 28px;
      }

      .hero-card,
      .panel,
      .summary-card {
        background: var(--panel);
        border: 1px solid var(--line);
        border-radius: 24px;
        backdrop-filter: blur(18px);
";

pub const STATS_PAGE_0_C: &'static str = "        box-shadow: var(--shadow);
      }

      .hero {
        margin-bottom: 12px;
      }

      .hero-card {
        padding: 14px;
      }

      .hero-top {
        display: grid;
        grid-template-columns: minmax(0, 1fr) auto;
        gap: 14px;
        align-items: start;
      }

      .eyebrow {
        display: inline-flex;
        align-items: center;
        gap: 8px;
        padding: 5px 10px;
        border-radius: 999px;
        background: var(--accent-soft);
        color: var(--accent);
        font-size: 10px;
        font-weight: 700;
        text-transform: uppercase;
        letter-spacing: 0.1em;
      }

      .pulse {
        width: 8px;
        height: 8px;
        border-radius: 999px;
        background: linear-gradient(135deg, #4ade80, #bef264);
        box-shadow: 0 0 0 0 rgba(74, 222, 128, 0.34);
        animation: pulse 1.8s infinite;
      }

      @keyframes pulse {
        0% { box-shadow: 0 0 0 0 rgba(74, 222, 128, 0.34); }
        70% { box-shadow: 0 0 0 12px rgba(74, 222, 128, 0); }
        100% { box-shadow: 0 0 0 0 rgba(74, 222, 128, 0); }
      }

      .hero h1 {
        margin: 8px 0 3px;
        font-size: clamp(1.24rem, 1.7vw, 1.9rem);
        line-height: 1;
        letter-spacing: -0.04em;
      }

      .hero p {
        margin: 0;
        max-width: 60ch;
        color: var(--muted);
        font-size: 0.8rem;
      }

      .hero-side {
        display: flex;
        align-items: center;
        justify-content: flex-end;
        gap: 8px;
        flex-wrap: wrap;
      }

      .control-cluster {
        display: inline-flex;
        align-items: center;
        gap: 6px;
        padding: 4px;
        border-radius: 999px;
        background: var(--panel-soft);
        border: 1px solid var(--line);
      }

      .control-label {
        padding-left: 8px;
        color: var(--muted);
        font-size: 0.7rem;
        font-weight: 600;
      }

      .toggle-group {
        display: inline-flex;
";

pub const STATS_PAGE_0_D: &'static str = "        gap: 4px;
      }

      .toggle-button,
      .button {
        display: inline-flex;
        align-items: center;
        justify-content: center;
        border: 0;
        cursor: pointer;
        color: inherit;
        font: inherit;
      }

      .toggle-button {
        padding: 6px 10px;
        border-radius: 999px;
        background: transparent;
        color: var(--muted);
        font-size: 0.78rem;
        font-weight: 700;
      }

      .toggle-button.active {
        background: linear-gradient(135deg, rgba(124, 92, 255, 0.32), rgba(119, 200, 255, 0.18));
        color: var(--text);
      }

      .hero-actions {
        display: inline-flex;
        gap: 8px;
        flex-wrap: wrap;
      }

      .button {
        padding: 7px 12px;
        border-radius: 999px;
        font-size: 0.82rem;
        font-weight: 700;
        background: linear-gradient(135deg, rgba(124, 92, 255, 0.36), rgba(119, 200, 255, 0.24));
        color: var(--accent-contrast);
        border: 1px solid rgba(180, 194, 255, 0.2);
      }

      .button.secondary {
        background: var(--panel-soft);
        color: var(--text);
      }

      .hero-meta {
        margin-top: 10px;
        display: grid;
        grid-template-columns: 1.4fr 0.9fr 1fr;
        gap: 8px;
      }

      .meta-chip {
        padding: 8px 10px;
        border-radius: 16px;
        background: var(--panel-strong);
        border: 1px solid var(--line);
      }

      .meta-chip-label {
        margin-bottom: 4px;
        color: var(--muted);
        font-size: 0.66rem;
        font-weight: 700;
        text-transform: uppercase;
        letter-spacing: 0.08em;
      }

      .meta-chip-value {
        font-size: 0.82rem;
        font-weight: 700;
        line-height: 1.32;
        overflow-wrap: anywhere;
      }

      .summary-grid {
        display: grid;
        grid-template-columns: repeat(3, minmax(0, 1fr));
        gap: 8px;
        margin-bottom: 12px;
      }

";

pub const STATS_PAGE_0_E: &'static str = "      .summary-card {
        padding: 10px 12px;
      }

      .summary-label {
        color: var(--muted);
        font-size: 0.72rem;
        font-weight: 600;
      }

      .summary-value {
        margin-top: 6px;
        font-size: 1.02rem;
        font-weight: 760;
        letter-spacing: -0.03em;
      }

      .summary-note {
        margin-top: 4px;
        color: var(--muted);
        font-size: 0.74rem;
      }

      .content-grid {
        display: grid;
        grid-template-columns: minmax(0, 1.35fr) minmax(320px, 0.82fr);
        gap: 12px;
      }

      .panel {
        padding: 14px;
      }

      .panel + .panel {
        margin-top: 12px;
      }

      .panel-header {
        display: flex;
        align-items: flex-start;
        justify-content: space-between;
        gap: 12px;
        margin-bottom: 12px;
      }

      .panel h2 {
        margin: 0;
        font-size: 1rem;
        letter-spacing: -0.02em;
      }

      .panel-subtitle {
        margin-top: 4px;
        color: var(--muted);
        font-size: 0.76rem;
      }

      .muted {
        color: var(--muted);
      }

      .resource-grid,
      .chart-grid {
        display: grid;
        grid-template-columns: repeat(2, minmax(0, 1fr));
        gap: 8px;
      }

      .resource-grid {
        margin-bottom: 8px;
      }

      .resource-card,
      .chart-card {
        padding: 10px 12px;
        border-radius: 18px;
        background: var(--panel-soft);
        border: 1px solid var(--line);
      }

      .resource-label,
      .mini-caption,
      .footer-note {
        color: var(--muted);
        font-size: 0.74rem;
      }

      .resource-value {
        margin-top: 6px;
        font-size: 0.98rem;
        font-weight: 760;
        letter-spacing: -0.03em;
      }

      .resource-bar,
      .meter {
        margin-top: 8px;
        height: 8px;
        border-radius: 999px;
        overflow: hidden;
        background: rgba(148, 163, 184, 0.12);
      }

";

pub const STATS_PAGE_0_F: &'static str = "      .resource-bar > span,
      .meter span {
        display: block;
        height: 100%;
        border-radius: inherit;
        background: linear-gradient(90deg, var(--accent), var(--accent-strong));
      }

      .chart-title {
        margin-bottom: 8px;
        font-size: 0.84rem;
        font-weight: 700;
      }

      svg {
        display: block;
        width: 100%;
        height: auto;
      }

      .pill-list {
        display: flex;
        flex-wrap: wrap;
        gap: 8px;
      }

      .pill {
        display: inline-flex;
        align-items: center;
        gap: 8px;
        padding: 8px 10px;
        border-radius: 999px;
        background: var(--panel-soft);
        border: 1px solid var(--line);
      }

      .list-stack {
        display: grid;
        gap: 10px;
      }

      .list-row {
        display: grid;
        grid-template-columns: minmax(0, 1fr) auto;
        gap: 10px;
        align-items: center;
      }

      .list-label {
        min-width: 0;
      }

      .list-label strong {
        display: block;
        overflow: hidden;
        text-overflow: ellipsis;
        white-space: nowrap;
      }

      .request-table-wrap {
        overflow: auto;
        border-radius: 20px;
        border: 1px solid var(--line);
        background: var(--panel-soft);
      }

      table {
        width: 100%;
        border-collapse: collapse;
        min-width: 820px;
      }

      th, td {
        text-align: left;
        padding: 12px 14px;
        border-bottom: 1px solid var(--line);
        vertical-align: top;
      }

      thead th {
        position: sticky;
        top: 0;
        background: var(--table-head);
        backdrop-filter: blur(12px);
        font-size: 0.74rem;
        font-weight: 700;
        text-transform: uppercase;
        letter-spacing: 0.08em;
        color: var(--muted);
      }

      tbody tr:hover {
        background: var(--table-hover);
      }

      .status-badge,
      .method-badge {
";

pub const STATS_PAGE_0_G: &'static str = "        display: inline-flex;
        min-width: 54px;
        justify-content: center;
        padding: 6px 9px;
        border-radius: 999px;
        font-size: 0.72rem;
        font-weight: 700;
      }

      .method-badge {
        background: rgba(119, 200, 255, 0.12);
        color: #d5f3ff;
      }

      html[data-theme=\"light\"] .method-badge {
        color: #0f4c75;
        background: rgba(14, 165, 233, 0.12);
      }

      .status-2xx { background: rgba(74, 222, 128, 0.14); color: #d6ffe6; }
      .status-3xx { background: rgba(119, 200, 255, 0.14); color: #d6f4ff; }
      .status-4xx { background: rgba(251, 191, 36, 0.14); color: #ffe7a8; }
      .status-5xx { background: rgba(251, 113, 133, 0.14); color: #ffd3db; }

      html[data-theme=\"light\"] .status-2xx { color: #166534; }
      html[data-theme=\"light\"] .status-3xx { color: #0f4c75; }
      html[data-theme=\"light\"] .status-4xx { color: #92400e; }
      html[data-theme=\"light\"] .status-5xx { color: #9f1239; }

      @media (max-width: 1180px) {
        .hero-top,
        .content-grid,
        .chart-grid {
          grid-template-columns: 1fr;
        }

        .hero-side {
          justify-content: flex-start;
        }
      }

      @media (max-width: 980px) {
        .shell {
          width: min(100vw - 20px, 100%);
          padding-top: 10px;
        }

        .hero-meta,
        .summary-grid,
        .resource-grid {
          grid-template-columns: 1fr;
        }
      }

      @media (max-width: 640px) {
        .hero-card,
        .panel,
        .summary-card {
          padding: 12px;
          border-radius: 20px;
        }
      }
    </style>
  </head>
  <body>
    <main class=\"shell\">
      <section class=\"hero\">
        <article class=\"hero-card\">
          <div class=\"hero-top\">
            <div>
              <div class=\"eyebrow\"><span class=\"pulse\"></span><span data-i18n=\"eyebrow\">Live runtime observatory</span></div>
";

pub const STATS_PAGE_0_H: &'static str = "              <h1 data-i18n=\"hero_title\">Service control deck</h1>
              <p data-i18n=\"hero_description\">A live operational view of request traffic, route activity, client reach, and resource pressure for the current <code>serve-here</code> process.</p>
            </div>
            <div class=\"hero-side\">
              <div class=\"control-cluster\">
                <span class=\"control-label\" data-i18n=\"theme_label\">Theme</span>
                <div class=\"toggle-group\">
                  <button type=\"button\" class=\"toggle-button\" data-theme-choice=\"dark\" data-i18n=\"theme_dark\">Dark</button>
                  <button type=\"button\" class=\"toggle-button\" data-theme-choice=\"light\" data-i18n=\"theme_light\">Light</button>
                </div>
              </div>
              <div class=\"control-cluster\">
                <span class=\"control-label\" data-i18n=\"language_label\">Language</span>
                <div class=\"toggle-group\">
                  <button type=\"button\" class=\"toggle-button\" data-lang-choice=\"en\">EN</button>
                  <button type=\"button\" class=\"toggle-button\" data-lang-choice=\"zh\">中文</button>
                </div>
              </div>
              <div class=\"hero-actions\">
                <a class=\"button\" href=\"/\" data-role=\"browse-files\" data-i18n=\"browse_files\">Browse files</a>
                <a class=\"button secondary\" href=\"https://github.com/chenpu17/serve-here\" target=\"_blank\" rel=\"noreferrer\" data-i18n=\"project_repo\">Project repo</a>
              </div>
            </div>
          </div>
          <div class=\"hero-meta\">
            <div class=\"meta-chip\">
              <div class=\"meta-chip-label\" data-i18n=\"served_directory\">Served directory</div>
              <div class=\"meta-chip-value\">";

/// Part 0 of the dashboard page.
pub open spec fn stats_page_0() -> Seq<char> {
    STATS_PAGE_0_A@
        + STATS_PAGE_0_B@
        + STATS_PAGE_0_C@
        + STATS_PAGE_0_D@
        + STATS_PAGE_0_E@
        + STATS_PAGE_0_F@
        + STATS_PAGE_0_G@
        + STATS_PAGE_0_H@
}

/// Appends part 0 of the dashboard page.
pub fn push_stats_page_0(out: &mut String)
    ensures
        final(out)@ == old(out)@ + stats_page_0(),
{
    out.append(STATS_PAGE_0_A);
    out.append(STATS_PAGE_0_B);
    out.append(STATS_PAGE_0_C);
    out.append(STATS_PAGE_0_D);
    out.append(STATS_PAGE_0_E);
    out.append(STATS_PAGE_0_F);
    out.append(STATS_PAGE_0_G);
    out.append(STATS_PAGE_0_H);
    assert(final(out)@ =~= old(out)@ + stats_page_0());
}

/// Part 1 of the dashboard page.
pub const STATS_PAGE_1: &'static str = "</div>
            </div>
            <div class=\"meta-chip\">
              <div class=\"meta-chip-label\" data-i18n=\"bind_address\">Bind address</div>
              <div class=\"meta-chip-value\">http://";

/// Part 2 of the dashboard page.
pub const STATS_PAGE_2: &'static str = ":";

/// Part 3 of the dashboard page.
pub const STATS_PAGE_3: &'static str = "</div>
            </div>
            <div class=\"meta-chip\">
              <div class=\"meta-chip-label\" data-i18n=\"dashboard_started\">Dashboard started</div>
              <div class=\"meta-chip-value\" id=\"startedAt\" data-started-at-ms=\"";

pub const STATS_PAGE_4_A: &'static str = "\">Loading...</div>
            </div>
          </div>
        </article>
      </section>

      <section class=\"summary-grid\" id=\"summaryCards\"></section>

      <section class=\"content-grid\">
        <div>
          <section class=\"panel\">
            <div class=\"panel-header\">
              <div>
                <h2 data-i18n=\"resource_pressure\">Resource pressure</h2>
                <div class=\"panel-subtitle\" data-i18n=\"resource_pressure_subtitle\">Process and machine health refreshed every five seconds.</div>
              </div>
              <div class=\"muted\" id=\"refreshState\" data-i18n=\"refreshing\">Refreshing...</div>
            </div>
            <div class=\"resource-grid\" id=\"resourceCards\"></div>
            <div class=\"chart-grid\">
              <div class=\"chart-card\">
                <div class=\"chart-title\" data-i18n=\"process_cpu\">Process CPU</div>
                <div id=\"cpuChart\"></div>
                <div class=\"mini-caption\" id=\"cpuCaption\" data-i18n=\"waiting_for_data\">Waiting for data...</div>
              </div>
              <div class=\"chart-card\">
                <div class=\"chart-title\" data-i18n=\"process_memory\">Process memory</div>
                <div id=\"memoryChart\"></div>
                <div class=\"mini-caption\" id=\"memoryCaption\" data-i18n=\"waiting_for_data\">Waiting for data...</div>
              </div>
            </div>
          </section>

          <section class=\"panel\">
            <div class=\"panel-header\">
              <div>
                <h2 data-i18n=\"latest_requests\">Latest requests</h2>
                <div class=\"panel-subtitle\" data-i18n=\"latest_requests_subtitle\">Newest 1000 requests, excluding the dashboard JSON polling endpoint.</div>
              </div>
              <div class=\"muted\" id=\"requestCount\">0 captured</div>
            </div>
            <div class=\"request-table-wrap\">
              <table>
                <thead>
                  <tr>
";

pub const STATS_PAGE_4_B: &'static str = "                    <th data-i18n=\"table_time\">Time</th>
                    <th data-i18n=\"table_method\">Method</th>
                    <th data-i18n=\"table_status\">Status</th>
                    <th data-i18n=\"table_path\">Path</th>
                    <th data-i18n=\"table_client\">Client</th>
                    <th data-i18n=\"table_latency\">Latency</th>
                    <th data-i18n=\"table_bytes\">Bytes</th>
                  </tr>
                </thead>
                <tbody id=\"recentRequests\"></tbody>
              </table>
            </div>
          </section>
        </div>

        <div>
          <section class=\"panel\">
            <div class=\"panel-header\">
              <div>
                <h2 data-i18n=\"top_routes\">Top routes</h2>
                <div class=\"panel-subtitle\" data-i18n=\"top_routes_subtitle\">Most frequently requested paths in this process lifetime.</div>
              </div>
            </div>
            <div class=\"list-stack\" id=\"topRoutes\"></div>
          </section>

          <section class=\"panel\">
            <div class=\"panel-header\">
              <div>
                <h2 data-i18n=\"client_footprint\">Client footprint</h2>
                <div class=\"panel-subtitle\" data-i18n=\"client_footprint_subtitle\">Unique client IPs and their request volume.</div>
              </div>
            </div>
            <div class=\"list-stack\" id=\"topClients\"></div>
          </section>

          <section class=\"panel\">
            <div class=\"panel-header\">
              <div>
                <h2 data-i18n=\"request_mix\">Request mix</h2>
                <div class=\"panel-subtitle\" data-i18n=\"request_mix_subtitle\">Method and status distribution across observed traffic.</div>
              </div>
            </div>
            <div class=\"pill-list\" id=\"methodPills\"></div>
            <div class=\"footer-note\" data-i18n=\"method_distribution\">HTTP method distribution</div>
            <div style=\"height: 14px\"></div>
";

pub const STATS_PAGE_4_C: &'static str = "            <div class=\"pill-list\" id=\"statusPills\"></div>
            <div class=\"footer-note\" data-i18n=\"status_distribution\">Response status distribution</div>
          </section>
        </div>
      </section>
    </main>

    <script>
      const copy = {
        en: {
          page_title: \"serve-here stats\",
          eyebrow: \"Live runtime observatory\",
          hero_title: \"Service control deck\",
          hero_description: \"A live operational view of request traffic, route activity, client reach, and resource pressure for the current serve-here process.\",
          theme_label: \"Theme\",
          theme_dark: \"Dark\",
          theme_light: \"Light\",
          language_label: \"Language\",
          browse_files: \"Browse files\",
          project_repo: \"Project repo\",
          served_directory: \"Served directory\",
          bind_address: \"Bind address\",
          dashboard_started: \"Dashboard started\",
          resource_pressure: \"Resource pressure\",
          resource_pressure_subtitle: \"Process and machine health refreshed every five seconds.\",
          refreshing: \"Refreshing...\",
          waiting_for_data: \"Waiting for data...\",
          latest_requests: \"Latest requests\",
          latest_requests_subtitle: \"Newest 1000 requests, excluding the dashboard JSON polling endpoint.\",
          table_time: \"Time\",
          table_method: \"Method\",
          table_status: \"Status\",
          table_path: \"Path\",
          table_client: \"Client\",
          table_latency: \"Latency\",
          table_bytes: \"Bytes\",
          top_routes: \"Top routes\",
          top_routes_subtitle: \"Most frequently requested paths in this process lifetime.\",
          client_footprint: \"Client footprint\",
          client_footprint_subtitle: \"Unique client IPs and their request volume.\",
          request_mix: \"Request mix\",
          request_mix_subtitle: \"Method and status distribution across observed traffic.\",
          method_distribution: \"HTTP method distribution\",
";

pub const STATS_PAGE_4_D: &'static str = "          status_distribution: \"Response status distribution\",
          summary_total_requests: \"Total requests\",
          summary_total_requests_note: \"Last seen: {value}\",
          summary_unique_routes: \"Unique routes\",
          summary_unique_routes_note: \"Distinct URL paths observed\",
          summary_unique_clients: \"Unique clients\",
          summary_unique_clients_note: \"Distinct IP addresses observed\",
          summary_transferred: \"Transferred\",
          summary_transferred_note: \"Based on response Content-Length\",
          summary_throughput: \"Req throughput\",
          summary_throughput_note: \"Uptime: {value}\",
          summary_pid: \"PID\",
          summary_pid_note: \"Listening on {value}\",
          process_cpu: \"Process CPU\",
          system_cpu: \"System CPU\",
          process_memory: \"Process memory\",
          system_memory: \"System memory\",
          no_history_yet: \"No history yet.\",
          no_traffic_yet: \"No traffic yet.\",
          no_requests_yet: \"No requests observed yet.\",
          no_route_traffic_yet: \"No route traffic yet.\",
          no_client_ips_yet: \"No client IPs observed yet.\",
          unknown_agent: \"Unknown agent\",
          requests_per_minute: \"{value} req/min\",
          duration_ms: \"{value} ms\",
          duration_s: \"{value} s\",
          captured_count: \"{count} captured\",
          refresh_updated: \"Updated {time}\",
          refresh_failed: \"Refresh failed: {message}\",
          load_avg: \"Load avg: {one} / {five} / {fifteen}\",
          virtual_memory: \"Virtual memory: {value}\",
          other_routes: \"[other routes]\",
          other_clients: \"[other clients]\"
        },
        zh: {
          page_title: \"serve-here 统计面板\",
          eyebrow: \"实时运行观测\",
          hero_title: \"服务控制台\",
          hero_description: \"实时查看当前 serve-here 进程的请求流量、路由活跃度、客户端覆盖情况与资源压力。\",
          theme_label: \"主题\",
          theme_dark: \"深色\",
          theme_light: \"亮色\",
          language_label: \"语言\",
";

pub const STATS_PAGE_4_E: &'static str = "          browse_files: \"浏览文件\",
          project_repo: \"项目仓库\",
          served_directory: \"服务目录\",
          bind_address: \"监听地址\",
          dashboard_started: \"面板启动时间\",
          resource_pressure: \"资源压力\",
          resource_pressure_subtitle: \"每 5 秒刷新一次进程与机器健康状态。\",
          refreshing: \"刷新中...\",
          waiting_for_data: \"等待数据...\",
          latest_requests: \"最新请求\",
          latest_requests_subtitle: \"最近 1000 条请求，不包含统计面板 JSON 轮询接口。\",
          table_time: \"时间\",
          table_method: \"方法\",
          table_status: \"状态\",
          table_path: \"路径\",
          table_client: \"客户端\",
          table_latency: \"延迟\",
          table_bytes: \"字节数\",
          top_routes: \"热门路由\",
          top_routes_subtitle: \"当前进程生命周期内请求最频繁的路径。\",
          client_footprint: \"客户端分布\",
          client_footprint_subtitle: \"不同客户端 IP 及其请求量。\",
          request_mix: \"请求构成\",
          request_mix_subtitle: \"当前流量中的方法与状态码分布。\",
          method_distribution: \"HTTP 方法分布\",
          status_distribution: \"响应状态分布\",
          summary_total_requests: \"总请求数\",
          summary_total_requests_note: \"最近请求：{value}\",
          summary_unique_routes: \"唯一路由\",
          summary_unique_routes_note: \"已观测到的不同 URL 路径\",
          summary_unique_clients: \"唯一客户端\",
          summary_unique_clients_note: \"已观测到的不同 IP 地址\",
          summary_transferred: \"传输字节\",
          summary_transferred_note: \"基于响应 Content-Length\",
          summary_throughput: \"请求吞吐\",
          summary_throughput_note: \"运行时长：{value}\",
          summary_pid: \"进程 PID\",
          summary_pid_note: \"监听于 {value}\",
          process_cpu: \"进程 CPU\",
          system_cpu: \"系统 CPU\",
          process_memory: \"进程内存\",
          system_memory: \"系统内存\",
          no_history_yet: \"暂无历史数据。\",
          no_traffic_yet: \"暂无流量。\",
          no_requests_yet: \"尚未观测到请求。\",
          no_route_traffic_yet: \"暂无路由流量。\",
          no_client_ips_yet: \"暂无客户端 IP。\",
          unknown_agent: \"未知客户端\",
          requests_per_minute: \"{value} 次/分钟\",
          duration_ms: \"{value} 毫秒\",
";

pub const STATS_PAGE_4_F: &'static str = "          duration_s: \"{value} 秒\",
          captured_count: \"已记录 {count} 条\",
          refresh_updated: \"更新于 {time}\",
          refresh_failed: \"刷新失败：{message}\",
          load_avg: \"平均负载：{one} / {five} / {fifteen}\",
          virtual_memory: \"虚拟内存：{value}\",
          other_routes: \"【其他路由】\",
          other_clients: \"【其他客户端】\"
        }
      };

      const root = document.documentElement;
      const ui = {
        theme: root.dataset.theme || \"dark\",
        lang: root.dataset.lang || \"en\"
      };
      let lastSnapshot = null;

      const startedAtEl = document.getElementById(\"startedAt\");
      const refreshState = document.getElementById(\"refreshState\");
      const requestCount = document.getElementById(\"requestCount\");
      const themeButtons = Array.from(document.querySelectorAll(\"[data-theme-choice]\"));
      const langButtons = Array.from(document.querySelectorAll(\"[data-lang-choice]\"));

      function translate(key, vars = {}) {
        const table = copy[ui.lang] || copy.en;
        let value = table[key] || copy.en[key] || key;
        for (const [name, replacement] of Object.entries(vars)) {
          value = value.replaceAll(`{${name}}`, replacement);
        }
        return value;
      }

      function locale() {
        return ui.lang === \"zh\" ? \"zh-CN\" : \"en-US\";
      }

      function formatNumber(value) {
        return new Intl.NumberFormat(locale()).format(value ?? 0);
      }

      function formatBytes(bytes) {
        if (!bytes) return \"0 B\";
        const units = [\"B\", \"KB\", \"MB\", \"GB\", \"TB\"];
        let value = bytes;
        let unit = 0;
        while (value >= 1024 && unit < units.length - 1) {
          value /= 1024;
          unit += 1;
        }
        return `${value >= 10 || unit === 0 ? value.toFixed(0) : value.toFixed(1)} ${units[unit]}`;
      }

      function formatRate(value) {
        return translate(\"requests_per_minute\", { value: value.toFixed(1) });
      }

      function formatDate(ts) {
";

pub const STATS_PAGE_4_G: &'static str = "        if (!ts) return \"-\";
        return new Date(ts).toLocaleString(locale());
      }

      function formatTime(ts) {
        return new Date(ts).toLocaleTimeString(locale(), {
          hour: \"2-digit\",
          minute: \"2-digit\",
          second: \"2-digit\"
        });
      }

      function escapeHtml(value) {
        return String(value ?? \"\")
          .replaceAll(\"&\", \"&amp;\")
          .replaceAll(\"<\", \"&lt;\")
          .replaceAll(\">\", \"&gt;\")
          .replaceAll('\"', \"&quot;\")
          .replaceAll(\"'\", \"&#39;\");
      }

      function formatDuration(ms) {
        if (ms < 1000) {
          return translate(\"duration_ms\", { value: formatNumber(ms) });
        }
        return translate(\"duration_s\", { value: (ms / 1000).toFixed(ms >= 10000 ? 0 : 1) });
      }

      function statusClass(status) {
        if (status >= 500) return \"status-5xx\";
        if (status >= 400) return \"status-4xx\";
        if (status >= 300) return \"status-3xx\";
        return \"status-2xx\";
      }

      function applyTheme() {
        root.dataset.theme = ui.theme;
        localStorage.setItem(\"serve-here-theme\", ui.theme);
        themeButtons.forEach(button => {
          button.classList.toggle(\"active\", button.dataset.themeChoice === ui.theme);
        });
      }

      function applyLanguage() {
        root.dataset.lang = ui.lang;
        root.lang = ui.lang === \"zh\" ? \"zh-CN\" : \"en\";
        localStorage.setItem(\"serve-here-lang\", ui.lang);
        document.title = translate(\"page_title\");
        document.querySelectorAll(\"[data-i18n]\").forEach(node => {
          node.textContent = translate(node.dataset.i18n);
        });
        langButtons.forEach(button => {
          button.classList.toggle(\"active\", button.dataset.langChoice === ui.lang);
        });
        startedAtEl.textContent = formatDate(Number(startedAtEl.dataset.startedAtMs));
        if (lastSnapshot) {
          render(lastSnapshot);
        } else {
";

pub const STATS_PAGE_4_H: &'static str = "          refreshState.textContent = translate(\"refreshing\");
          requestCount.textContent = translate(\"captured_count\", { count: \"0\" });
        }
      }

      function renderSummaryCards(snapshot) {
        const uniqueRoutesValue = `${formatNumber(snapshot.overview.unique_routes)}${snapshot.overview.unique_routes_capped ? \"+\" : \"\"}`;
        const uniqueClientsValue = `${formatNumber(snapshot.overview.unique_clients)}${snapshot.overview.unique_clients_capped ? \"+\" : \"\"}`;
        const cards = [
          [
            translate(\"summary_total_requests\"),
            formatNumber(snapshot.overview.total_requests),
            translate(\"summary_total_requests_note\", { value: formatDate(snapshot.overview.last_request_at_ms) })
          ],
          [
            translate(\"summary_unique_routes\"),
            uniqueRoutesValue,
            translate(\"summary_unique_routes_note\")
          ],
          [
            translate(\"summary_unique_clients\"),
            uniqueClientsValue,
            translate(\"summary_unique_clients_note\")
          ],
          [
            translate(\"summary_transferred\"),
            formatBytes(snapshot.overview.total_bytes_sent),
            translate(\"summary_transferred_note\")
          ],
          [
            translate(\"summary_throughput\"),
            formatRate(snapshot.overview.requests_per_minute),
            translate(\"summary_throughput_note\", { value: formatDuration(snapshot.uptime_seconds * 1000) })
          ],
          [
            translate(\"summary_pid\"),
            formatNumber(snapshot.server.pid),
            translate(\"summary_pid_note\", { value: `${snapshot.server.host}:${snapshot.server.port}` })
          ]
        ];

        document.getElementById(\"summaryCards\").innerHTML = cards
          .map(([label, value, note]) => `
            <article class=\"summary-card\">
              <div class=\"summary-label\">${label}</div>
              <div class=\"summary-value\">${value}</div>
";

pub const STATS_PAGE_4_I: &'static str = "              <div class=\"summary-note\">${note}</div>
            </article>
          `)
          .join(\"\");
      }

      function renderResourceCards(snapshot) {
        const totalMemory = snapshot.resources.system_memory_total_bytes || 1;
        const processMemoryRatio = Math.min(100, (snapshot.resources.process_memory_bytes / totalMemory) * 100);
        const cards = [
          [translate(\"process_cpu\"), `${snapshot.resources.process_cpu_percent.toFixed(1)}%`, snapshot.resources.process_cpu_percent],
          [translate(\"system_cpu\"), `${snapshot.resources.system_cpu_percent.toFixed(1)}%`, snapshot.resources.system_cpu_percent],
          [translate(\"process_memory\"), formatBytes(snapshot.resources.process_memory_bytes), processMemoryRatio],
          [translate(\"system_memory\"), `${formatBytes(snapshot.resources.system_memory_used_bytes)} / ${formatBytes(snapshot.resources.system_memory_total_bytes)}`, snapshot.resources.system_memory_percent]
        ];

        document.getElementById(\"resourceCards\").innerHTML = cards
          .map(([label, value, progress]) => `
            <article class=\"resource-card\">
              <div class=\"resource-label\">${label}</div>
              <div class=\"resource-value\">${value}</div>
              <div class=\"resource-bar\"><span style=\"width:${Math.max(2, Math.min(100, progress)).toFixed(1)}%\"></span></div>
            </article>
          `)
          .join(\"\");
      }

      function renderLineChart(nodeId, points, accessor, stroke) {
        const host = document.getElementById(nodeId);
        if (!points.length) {
          host.innerHTML = `<div class=\"muted\">${translate(\"no_history_yet\")}</div>`;
          return;
        }

        const width = 560;
        const height = 170;
        const padding = 12;
        const values = points.map(accessor);
        const max = Math.max(...values, 1);
        const min = Math.min(...values, 0);
        const span = Math.max(max - min, 1);

";

pub const STATS_PAGE_4_J: &'static str = "        const coords = values.map((value, index) => {
          const x = padding + (index / Math.max(points.length - 1, 1)) * (width - padding * 2);
          const y = height - padding - ((value - min) / span) * (height - padding * 2);
          return `${x.toFixed(2)},${y.toFixed(2)}`;
        });

        const area = [`${padding},${height - padding}`, ...coords, `${width - padding},${height - padding}`].join(\" \");

        host.innerHTML = `
          <svg viewBox=\"0 0 ${width} ${height}\" preserveAspectRatio=\"none\" aria-hidden=\"true\">
            <defs>
              <linearGradient id=\"${nodeId}Gradient\" x1=\"0\" x2=\"0\" y1=\"0\" y2=\"1\">
                <stop offset=\"0%\" stop-color=\"${stroke}\" stop-opacity=\"0.34\"></stop>
                <stop offset=\"100%\" stop-color=\"${stroke}\" stop-opacity=\"0\"></stop>
              </linearGradient>
            </defs>
            <polyline fill=\"url(#${nodeId}Gradient)\" stroke=\"none\" points=\"${area}\"></polyline>
            <polyline fill=\"none\" stroke=\"${stroke}\" stroke-width=\"4\" stroke-linecap=\"round\" stroke-linejoin=\"round\" points=\"${coords.join(\" \")}\"></polyline>
          </svg>
        `;
      }

      function renderTopList(nodeId, items, emptyKey) {
        const max = Math.max(...items.map(item => item.count), 1);
        document.getElementById(nodeId).innerHTML = items.length
          ? items.map(item => `
              <div class=\"list-row\">
                <div class=\"list-label\">
                  <strong title=\"${escapeHtml(item.label)}\">${escapeHtml(item.label)}</strong>
                  <div class=\"meter\"><span style=\"width:${(item.count / max) * 100}%\"></span></div>
                </div>
                <div>${formatNumber(item.count)}</div>
              </div>
            `).join(\"\")
          : `<div class=\"muted\">${translate(emptyKey)}</div>`;
      }

      function renderPills(nodeId, items) {
        document.getElementById(nodeId).innerHTML = items.length
";

pub const STATS_PAGE_4_K: &'static str = "          ? items.map(item => item).join(\"\")
          : `<span class=\"muted\">${translate(\"no_traffic_yet\")}</span>`;
      }

      function renderRecentRequests(snapshot) {
        requestCount.textContent = translate(\"captured_count\", {
          count: formatNumber(snapshot.recent_requests.length)
        });

        document.getElementById(\"recentRequests\").innerHTML = snapshot.recent_requests.length
          ? snapshot.recent_requests.map(item => `
              <tr>
                <td>${formatDate(item.timestamp_ms)}</td>
                <td><span class=\"method-badge\">${item.method}</span></td>
                <td><span class=\"status-badge ${statusClass(item.status)}\">${item.status}</span></td>
                <td>
                  <div>${escapeHtml(item.path)}</div>
                  <div class=\"muted\">${escapeHtml(item.user_agent || translate(\"unknown_agent\"))}</div>
                </td>
                <td>${escapeHtml(item.client_ip || \"-\")}</td>
                <td>${formatDuration(item.duration_ms)}</td>
                <td>${item.response_bytes ? formatBytes(item.response_bytes) : \"-\"}</td>
              </tr>
            `).join(\"\")
          : `<tr><td colspan=\"7\" class=\"muted\">${translate(\"no_requests_yet\")}</td></tr>`;
      }

      function render(snapshot) {
        renderSummaryCards(snapshot);
        renderResourceCards(snapshot);
        renderTopList(\"topRoutes\", snapshot.top_routes, \"no_route_traffic_yet\");
        renderTopList(\"topClients\", snapshot.top_clients, \"no_client_ips_yet\");
        renderPills(
          \"methodPills\",
          snapshot.methods.map(item => `<span class=\"pill\"><strong>${item.label}</strong><span>${formatNumber(item.count)}</span></span>`)
        );
        renderPills(
          \"statusPills\",
          snapshot.statuses.map(item => `<span class=\"pill\"><strong>${item.status}</strong><span>${formatNumber(item.count)}</span></span>`)
        );
        renderRecentRequests(snapshot);
";

pub const STATS_PAGE_4_L: &'static str = "        renderLineChart(\"cpuChart\", snapshot.resources.history, item => item.process_cpu_percent, \"#77c8ff\");
        renderLineChart(\"memoryChart\", snapshot.resources.history, item => item.process_memory_bytes, \"#7c5cff\");
        document.getElementById(\"cpuCaption\").textContent = translate(\"load_avg\", {
          one: snapshot.resources.load_avg_one.toFixed(2),
          five: snapshot.resources.load_avg_five.toFixed(2),
          fifteen: snapshot.resources.load_avg_fifteen.toFixed(2)
        });
        document.getElementById(\"memoryCaption\").textContent = translate(\"virtual_memory\", {
          value: formatBytes(snapshot.resources.process_virtual_memory_bytes)
        });
        refreshState.textContent = translate(\"refresh_updated\", {
          time: formatTime(snapshot.generated_at_ms)
        });
      }

      async function refresh() {
        refreshState.textContent = translate(\"refreshing\");

        try {
          const response = await fetch(\"";

/// Part 4 of the dashboard page.
pub open spec fn stats_page_4() -> Seq<char> {
    STATS_PAGE_4_A@
        + STATS_PAGE_4_B@
        + STATS_PAGE_4_C@
        + STATS_PAGE_4_D@
        + STATS_PAGE_4_E@
        + STATS_PAGE_4_F@
        + STATS_PAGE_4_G@
        + STATS_PAGE_4_H@
        + STATS_PAGE_4_I@
        + STATS_PAGE_4_J@
        + STATS_PAGE_4_K@
        + STATS_PAGE_4_L@
}

/// Appends part 4 of the dashboard page.
pub fn push_stats_page_4(out: &mut String)
    ensures
        final(out)@ == old(out)@ + stats_page_4(),
{
    out.append(STATS_PAGE_4_A);
    out.append(STATS_PAGE_4_B);
    out.append(STATS_PAGE_4_C);
    out.append(STATS_PAGE_4_D);
    out.append(STATS_PAGE_4_E);
    out.append(STATS_PAGE_4_F);
    out.append(STATS_PAGE_4_G);
    out.append(STATS_PAGE_4_H);
    out.append(STATS_PAGE_4_I);
    out.append(STATS_PAGE_4_J);
    out.append(STATS_PAGE_4_K);
    out.append(STATS_PAGE_4_L);
    assert(final(out)@ =~= old(out)@ + stats_page_4());
}

/// Part 5 of the dashboard page.
pub const STATS_PAGE_5: &'static str = "\", { cache: \"no-store\" });
          if (!response.ok) {
            throw new Error(`Request failed with ${response.status}`);
          }

          lastSnapshot = await response.json();
          render(lastSnapshot);
        } catch (error) {
          refreshState.textContent = translate(\"refresh_failed\", { message: error.message });
        }
      }

      themeButtons.forEach(button => {
        button.addEventListener(\"click\", () => {
          ui.theme = button.dataset.themeChoice;
          applyTheme();
        });
      });

      langButtons.forEach(button => {
        button.addEventListener(\"click\", () => {
          ui.lang = button.dataset.langChoice;
          applyLanguage();
        });
      });

      applyTheme();
      applyLanguage();
      refresh();
      setInterval(refresh, 5000);
    </script>
  </body>
</html>";

/// The row that leads to the parent directory.
pub const PARENT_ROW: &'static str = "<tr class=\"entry-row\" data-name=\"..\" data-kind=\"directory\">
  <td>
    <a class=\"entry-link\" href=\"../\">
      <span class=\"entry-icon directory\">
        <svg viewBox=\"0 0 24 24\" aria-hidden=\"true\"><path d=\"M10.5 7 5.5 12l5 5\" fill=\"none\" stroke=\"currentColor\" stroke-width=\"2\" stroke-linecap=\"round\" stroke-linejoin=\"round\"/><path d=\"M6 12h12\" fill=\"none\" stroke=\"currentColor\" stroke-width=\"2\" stroke-linecap=\"round\"/></svg>
      </span>
      <span class=\"entry-main\">
        <span class=\"entry-name\" data-i18n=\"parent_directory\">Parent directory</span>
        <span class=\"entry-meta\" data-i18n=\"parent_directory_meta\">Step up one level</span>
      </span>
    </a>
  </td>
  <td><span class=\"kind-badge directory\" data-i18n=\"kind_directory\">Directory</span></td>
  <td>-</td>
  <td>-</td>
</tr>";

/// The icon of a directory entry.
pub const ICON_DIRECTORY: &'static str = "<svg viewBox=\"0 0 24 24\" aria-hidden=\"true\"><path d=\"M3 6.5A2.5 2.5 0 0 1 5.5 4H10l2 2h6.5A2.5 2.5 0 0 1 21 8.5v9A2.5 2.5 0 0 1 18.5 20h-13A2.5 2.5 0 0 1 3 17.5z\" fill=\"currentColor\"/></svg>";

/// The icon of a file entry.
pub const ICON_FILE: &'static str = "<svg viewBox=\"0 0 24 24\" aria-hidden=\"true\"><path d=\"M7 3.75A1.75 1.75 0 0 1 8.75 2h6.19L21 8.06V20.25A1.75 1.75 0 0 1 19.25 22H8.75A1.75 1.75 0 0 1 7 20.25z\" fill=\"currentColor\"/><path d=\"M14.5 2v5.5H20\" fill=\"none\" stroke=\"rgba(255,255,255,0.55)\" stroke-width=\"1.3\"/></svg>";

/// The first breadcrumb, which leads to the root.
pub const ROOT_CRUMB: &'static str = "<a class=\"crumb\" href=\"/\" data-i18n=\"breadcrumb_root\">Root</a>";

/// The text before the link of a breadcrumb.
pub const CRUMB_0: &'static str = "<span class=\"muted\">/</span><a class=\"crumb\" href=\"";

/// The text between the link and the name of a breadcrumb.
pub const CRUMB_1: &'static str = "\">";

/// The text after the name of a breadcrumb.
pub const CRUMB_2: &'static str = "</a>";

/// The placeholder row of an empty directory.
pub const EMPTY_DIRECTORY_ROW: &'static str = "<tr id=\"emptyStateRow\"><td colspan=\"4\" class=\"empty-state\" data-i18n=\"empty_directory\">This directory is empty.</td></tr>";

/// The hidden placeholder row shown when a filter matches nothing.
pub const NO_MATCH_ROW: &'static str = "<tr id=\"emptyStateRow\" hidden><td colspan=\"4\" class=\"empty-state\" data-i18n=\"empty_filtered\">No entries match the current filter.</td></tr>";

} // verus!

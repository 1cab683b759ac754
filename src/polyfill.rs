//! The compatibility script spliced into served HTML documents. Its text is
//! opaque to the server: it is only copied into responses.
use vstd::prelude::*;

verus! {

/// Browser-side shims (`require`, a save-backed `localStorage`, key bindings)
/// that a legacy game runtime expects.
pub const POLYFILL_SCRIPT: &'static str = r#"
<!-- Node.js Polyfills from CDN -->
<script src="https://cdnjs.cloudflare.com/ajax/libs/path-browserify/1.0.1/path.min.js"></script>
<script src="https://cdnjs.cloudflare.com/ajax/libs/buffer/6.0.3/buffer.min.js"></script>
<script src="https://cdnjs.cloudflare.com/ajax/libs/util/0.12.5/util.min.js"></script>

<script>
// RPG Maker Tauri Polyfills

// Setup global Buffer if not available
if (!window.Buffer && window.buffer) {
    window.Buffer = window.buffer.Buffer;
}

// Enhanced require function with real polyfills
if (!window.require) {
    // Create a modules cache
    const moduleCache = new Map();
    
    window.require = function(module) {
        console.log('[TAURI_POLYFILL] require called for:', module);
        
        // Return cached module if available
        if (moduleCache.has(module)) {
            return moduleCache.get(module);
        }
        
        let moduleExports = null;
        
        // Use real path-browserify polyfill
        if (module === 'path') {
            if (window.path && window.path.posix) {
                moduleExports = window.path.posix; // Use POSIX version for consistency
            } else if (window.path) {
                moduleExports = window.path;
            } else {
                // Fallback minimal path implementation
                moduleExports = {
                    join: function(...paths) {
                        return paths.join('/').replace(/\/+/g, '/');
                    },
                    dirname: function(path) {
                        return path.split('/').slice(0, -1).join('/') || '.';
                    },
                    basename: function(path, ext) {
                        let name = path.split('/').pop() || '';
                        if (ext && name.endsWith(ext)) {
                            name = name.slice(0, -ext.length);
                        }
                        return name;
                    },
                    extname: function(path) {
                        const matches = path.match(/\.[^.]*$/);
                        return matches ? matches[0] : '';
                    },
                    resolve: function(...paths) {
                        return this.join(...paths);
                    },
                    sep: '/',
                    delimiter: ':'
                };
            }
        }
        
        // Enhanced fs polyfill with Tauri integration
        else if (module === 'fs') {
            moduleExports = {
                readFileSync: function(path, options) {
                    console.warn('[TAURI_POLYFILL] fs.readFileSync called for:', path);
                    
                    // For RPG Maker save files, try to use Tauri
                    if (path.includes('.rpgsave') && window.__TAURI__) {
                        // This is synchronous but RPG Maker might handle async
                        console.warn('readFileSync for save file, consider using async alternatives');
                    }
                    
                    // Default behavior - return empty or throw
                    if (options && options.encoding === 'utf8') {
                        return '';
                    }
                    return Buffer.alloc ? Buffer.alloc(0) : new ArrayBuffer(0);
                },
                
                writeFileSync: function(path, data, options) {
                    console.warn('[TAURI_POLYFILL] fs.writeFileSync called for:', path);
                    
                    // For RPG Maker save files, try to use Tauri
                    if (path.includes('.rpgsave') && window.__TAURI__) {
                        // Store the write request for async handling
                        console.log('Attempting to write save file via Tauri');
                        window.__TAURI__.invoke('write_save', { 
                            filename: path, 
                            data: data.toString() 
                        }).catch(console.error);
                    }
                },
                
                existsSync: function(path) {
                    console.warn('[TAURI_POLYFILL] fs.existsSync called for:', path);
                    
                    // For RPG Maker files, check with Tauri
                    if (window.__TAURI__) {
                        // This should be async but RPG Maker expects sync
                        // Store result in a cache for next calls
                        if (!window._fsExistsCache) window._fsExistsCache = new Map();
                        
                        if (window._fsExistsCache.has(path)) {
                            return window._fsExistsCache.get(path);
                        }
                        
                        // Async check, store result
                        window.__TAURI__.invoke('file_exists', { filepath: path })
                            .then(exists => {
                                window._fsExistsCache.set(path, exists);
                            })
                            .catch(() => {
                                window._fsExistsCache.set(path, false);
                            });
                        
                        return false; // Default to false for first call
                    }
                    
                    return false;
                },
                
                // Add other common fs methods
                readdirSync: function(path) {
                    console.warn('[TAURI_POLYFILL] fs.readdirSync not implemented:', path);
                    return [];
                },
                
                statSync: function(path) {
                    console.warn('[TAURI_POLYFILL] fs.statSync not implemented:', path);
                    return {
                        isFile: () => true,
                        isDirectory: () => false,
                        size: 0
                    };
                }
            };
        }
        
        // Buffer module
        else if (module === 'buffer') {
            if (window.Buffer) {
                moduleExports = { Buffer: window.Buffer };
            } else {
                moduleExports = {
                    Buffer: class Buffer extends Uint8Array {
                        constructor(input, encoding) {
                            if (typeof input === 'string') {
                                const encoder = new TextEncoder();
                                super(encoder.encode(input));
                            } else if (typeof input === 'number') {
                                super(input);
                            } else {
                                super(input || 0);
                            }
                        }
                        
                        toString(encoding = 'utf8') {
                            const decoder = new TextDecoder(encoding);
                            return decoder.decode(this);
                        }
                        
                        static from(input, encoding) {
                            return new Buffer(input, encoding);
                        }
                        
                        static alloc(size) {
                            return new Buffer(size);
                        }
                    }
                };
            }
        }
        
        // util module
        else if (module === 'util') {
            moduleExports = window.util || {
                inspect: function(obj) {
                    return JSON.stringify(obj, null, 2);
                },
                format: function(f, ...args) {
                    return f.replace(/%[sdj%]/g, (x) => {
                        if (args.length === 0) return x;
                        switch (x) {
                            case '%s': return String(args.shift());
                            case '%d': return Number(args.shift());
                            case '%j':
                                try {
                                    return JSON.stringify(args.shift());
                                } catch (_) {
                                    return '[Circular]';
                                }
                            default:
                                return x;
                        }
                    });
                }
            };
        }
        
        // NW.js GUI polyfill
        else if (module === 'nw.gui') {
            moduleExports = {
                Window: {
                    get: function() {
                        return {
                            showDevTools: async function() {
                                console.log('[TAURI_POLYFILL] Opening DevTools...');
                                if (window.__TAURI__) {
                                    try {
                                        await window.__TAURI__.invoke('show_dev_tools');
                                    } catch (e) {
                                        console.error('Failed to open DevTools:', e);
                                    }
                                }
                            },
                            closeDevTools: function() {
                                console.log('[TAURI_POLYFILL] closeDevTools called (not implemented)');
                            },
                            close: function() {
                                if (window.__TAURI__) {
                                    window.__TAURI__.window.getCurrentWindow().close();
                                }
                            },
                            reload: function() {
                                window.location.reload();
                            },
                            maximize: function() {
                                if (window.__TAURI__) {
                                    window.__TAURI__.window.getCurrentWindow().maximize();
                                }
                            },
                            minimize: function() {
                                if (window.__TAURI__) {
                                    window.__TAURI__.window.getCurrentWindow().minimize();
                                }
                            }
                        };
                    }
                }
            };
        }
        
        // os module basic polyfill
        else if (module === 'os') {
            moduleExports = {
                platform: function() {
                    return navigator.platform.toLowerCase().includes('win') ? 'win32' : 
                           navigator.platform.toLowerCase().includes('mac') ? 'darwin' : 'linux';
                },
                tmpdir: function() {
                    return '/tmp';
                },
                homedir: function() {
                    return '~';
                }
            };
        }
        
        else {
            console.warn('[TAURI_POLYFILL] Unknown module requested:', module);
            moduleExports = {};
        }
        
        // Cache the module
        if (moduleExports) {
            moduleCache.set(module, moduleExports);
        }
        
        return moduleExports || {};
    };

// Override localStorage for RPG Maker saves
const originalLocalStorage = window.localStorage;
const originalLocalStorage = window.localStorage;

// Create a more sophisticated save system
class TauriSaveManager {
    constructor() {
        this.saveCache = new Map();
        this.pendingWrites = new Map();
    }
    
    async getItem(key) {
        if (this.isSaveKey(key)) {
            try {
                // Check cache first
                if (this.saveCache.has(key)) {
                    return this.saveCache.get(key);
                }
                
                if (window.__TAURI__) {
                    const filename = this.keyToFilename(key);
                    const data = await window.__TAURI__.invoke('read_save', { filename });
                    this.saveCache.set(key, data);
                    return data;
                }
            } catch (e) {
                console.error('Error reading save:', e);
            }
            return null;
        }
        return originalLocalStorage.getItem(key);
    }
    
    async setItem(key, value) {
        if (this.isSaveKey(key)) {
            try {
                if (window.__TAURI__) {
                    const filename = this.keyToFilename(key);
                    
                    // Update cache immediately
                    this.saveCache.set(key, value);
                    
                    // Debounce writes to avoid excessive I/O
                    if (this.pendingWrites.has(key)) {
                        clearTimeout(this.pendingWrites.get(key));
                    }
                    
                    const timeoutId = setTimeout(async () => {
                        try {
                            await window.__TAURI__.invoke('write_save', { 
                                filename, 
                                data: value 
                            });
                            this.pendingWrites.delete(key);
                            console.log(`[TAURI_SAVE] Successfully saved: ${filename}`);
                        } catch (e) {
                            console.error('Error writing save:', e);
                        }
                    }, 500); // 500ms debounce
                    
                    this.pendingWrites.set(key, timeoutId);
                    return;
                }
            } catch (e) {
                console.error('Error writing save:', e);
            }
        }
        originalLocalStorage.setItem(key, value);
    }
    
    async removeItem(key) {
        if (this.isSaveKey(key)) {
            try {
                if (window.__TAURI__) {
                    const filename = this.keyToFilename(key);
                    await window.__TAURI__.invoke('delete_save', { filename });
                    this.saveCache.delete(key);
                    return;
                }
            } catch (e) {
                console.error('Error deleting save:', e);
            }
        }
        originalLocalStorage.removeItem(key);
    }
    
    isSaveKey(key) {
        return key && (
            key.includes('.rpgsave') || 
            key.startsWith('RPG') || 
            key.includes('save') ||
            key.includes('Save') ||
            key.match(/^(file|global|config)\d*$/i)
        );
    }
    
    keyToFilename(key) {
        if (key.endsWith('.rpgsave')) {
            return key;
        }
        return `${key}.rpgsave`;
    }
    
    // Synchronous versions for backward compatibility
    getItemSync(key) {
        if (this.isSaveKey(key) && this.saveCache.has(key)) {
            return this.saveCache.get(key);
        }
        return originalLocalStorage.getItem(key);
    }
}

const tauriSaveManager = new TauriSaveManager();

const tauriStorage = {
    getItem: function(key) {
        // For RPG Maker, try synchronous first (from cache), then async
        const syncResult = tauriSaveManager.getItemSync(key);
        if (syncResult !== null) {
            return syncResult;
        }
        
        // If not in cache, trigger async load but return null for now
        if (tauriSaveManager.isSaveKey(key)) {
            tauriSaveManager.getItem(key).catch(console.error);
            return null;
        }
        
        return originalLocalStorage.getItem(key);
    },
    
    setItem: function(key, value) {
        tauriSaveManager.setItem(key, value).catch(console.error);
    },
    
    removeItem: function(key) {
        tauriSaveManager.removeItem(key).catch(console.error);
    },
    
    key: originalLocalStorage.key.bind(originalLocalStorage),
    clear: originalLocalStorage.clear.bind(originalLocalStorage),
    get length() { return originalLocalStorage.length; }
};

// Replace localStorage with our enhanced version
Object.defineProperty(window, 'localStorage', {
    value: tauriStorage,
    writable: false,
    configurable: false
});

// Global DevTools shortcuts and better integration
document.addEventListener('keydown', function(e) {
    // F12 or Ctrl+Shift+I
    if (e.key === 'F12' || (e.ctrlKey && e.shiftKey && e.key === 'I')) {
        e.preventDefault();
        if (window.__TAURI__) {
            window.__TAURI__.invoke('show_dev_tools').catch(console.error);
        }
    }
    
    // Ctrl+R or F5 for reload
    if ((e.ctrlKey && e.key === 'r') || e.key === 'F5') {
        e.preventDefault();
        window.location.reload();
    }
});

// Enhanced error handling for RPG Maker
window.addEventListener('error', function(e) {
    if (e.message && e.message.includes('require')) {
        console.error('[TAURI_POLYFILL] Require error detected:', e.message);
        console.log('[TAURI_POLYFILL] Available polyfilled modules: path, fs, buffer, util, os, nw.gui');
    }
});

// Pre-load save data when RPG Maker starts
if (window.__TAURI__) {
    document.addEventListener('DOMContentLoaded', async function() {
        try {
            console.log('[TAURI_POLYFILL] Pre-loading save data...');
            const saves = await window.__TAURI__.invoke('list_saves');
            console.log(`[TAURI_POLYFILL] Found ${saves.length} save files`);
            
            // Pre-cache common save keys
            const commonKeys = ['global', 'config', 'file1', 'file2', 'file3'];
            for (const key of commonKeys) {
                try {
                    const data = await tauriSaveManager.getItem(key);
                    if (data) {
                        console.log(`[TAURI_POLYFILL] Pre-cached save: ${key}`);
                    }
                } catch (e) {
                    // Ignore errors for non-existent saves
                }
            }
        } catch (e) {
            console.error('[TAURI_POLYFILL] Error pre-loading saves:', e);
        }
    });
}

console.log('[TAURI_POLYFILL] Enhanced RPG Maker polyfills loaded with CDN dependencies');
</script>
"#;

} // verus!
